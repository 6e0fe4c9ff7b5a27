//! The ARM7 core of the AICA: the register file with its banked copies, the
//! condition codes, and the ARM instruction set it runs (no Thumb).
use super::Aica;
use super::arm_bus::{arm_half, arm_memory_ok, arm_word, byte_stored, half_stored, read_byte, read_word, word_stored, ArmBus};
use crate::hw::sh4::cpu::wrap32;
use crate::hw::extensions::{barrel_shift_spec, bit32, bit_of, lemma_logic_bits, ror_spec, BarrelShifter, BitManipulation, ShiftType};
use vstd::prelude::*;

verus! {

/// The registers of the core: the user registers, the banked copies of
/// FIQ, IRQ and supervisor mode, the status register and the saved status
/// registers.
#[derive(Copy, Clone, PartialEq, Eq, Structural, Debug)]
pub struct CpuRegisters {
    pub r0: u32,
    pub r1: u32,
    pub r2: u32,
    pub r3: u32,
    pub r4: u32,
    pub r5: u32,
    pub r6: u32,
    pub r7: u32,
    pub r8: u32,
    pub r8_fiq: u32,
    pub r9: u32,
    pub r9_fiq: u32,
    pub r10: u32,
    pub r10_fiq: u32,
    pub r11: u32,
    pub r11_fiq: u32,
    pub r12: u32,
    pub r12_fiq: u32,
    pub r13_fiq: u32,
    pub r13_irq: u32,
    pub r13_svc: u32,
    pub r13: u32,
    pub r14_fiq: u32,
    pub r14_irq: u32,
    pub r14_svc: u32,
    pub r14: u32,
    pub r15: u32,
    pub cpsr: u32,
    pub spsr_fiq: u32,
    pub spsr_irq: u32,
    pub spsr_svc: u32,
}

/// FIQ mode.
pub const MODE_FIQ: u32 = 0x11;
/// IRQ mode.
pub const MODE_IRQ: u32 = 0x12;
/// Supervisor mode.
pub const MODE_SVC: u32 = 0x13;

impl CpuRegisters {
    /// The processor mode: the low five bits of the status register.
    pub open spec fn mode(self) -> u32 {
        self.cpsr & 0x1f
    }

    /// Register `index` as the current mode sees it.
    pub open spec fn read(self, index: int) -> u32 {
        let m = self.mode();
        if index == 8 && m == MODE_FIQ { self.r8_fiq }
        else if index == 9 && m == MODE_FIQ { self.r9_fiq }
        else if index == 10 && m == MODE_FIQ { self.r10_fiq }
        else if index == 11 && m == MODE_FIQ { self.r11_fiq }
        else if index == 12 && m == MODE_FIQ { self.r12_fiq }
        else if index == 13 && m == MODE_FIQ { self.r13_fiq }
        else if index == 13 && m == MODE_IRQ { self.r13_irq }
        else if index == 13 && m == MODE_SVC { self.r13_svc }
        else if index == 14 && m == MODE_FIQ { self.r14_fiq }
        else if index == 14 && m == MODE_IRQ { self.r14_irq }
        else if index == 14 && m == MODE_SVC { self.r14_svc }
        else { self.read_user(index) }
    }

    /// User-mode register `index` (register 0 for an index above 15).
    pub open spec fn read_user(self, index: int) -> u32 {
        if index == 1 { self.r1 } else if index == 2 { self.r2 } else if index == 3 { self.r3 }
        else if index == 4 { self.r4 } else if index == 5 { self.r5 } else if index == 6 { self.r6 }
        else if index == 7 { self.r7 } else if index == 8 { self.r8 } else if index == 9 { self.r9 }
        else if index == 10 { self.r10 } else if index == 11 { self.r11 } else if index == 12 { self.r12 }
        else if index == 13 { self.r13 } else if index == 14 { self.r14 } else if index == 15 { self.r15 }
        else { self.r0 }
    }

    /// The registers after writing register `index` as the current mode sees
    /// it (no change for an index above 15).
    pub open spec fn write(self, index: int, v: u32) -> CpuRegisters {
        let m = self.mode();
        if index == 8 && m == MODE_FIQ { CpuRegisters { r8_fiq: v, ..self } }
        else if index == 9 && m == MODE_FIQ { CpuRegisters { r9_fiq: v, ..self } }
        else if index == 10 && m == MODE_FIQ { CpuRegisters { r10_fiq: v, ..self } }
        else if index == 11 && m == MODE_FIQ { CpuRegisters { r11_fiq: v, ..self } }
        else if index == 12 && m == MODE_FIQ { CpuRegisters { r12_fiq: v, ..self } }
        else if index == 13 && m == MODE_FIQ { CpuRegisters { r13_fiq: v, ..self } }
        else if index == 13 && m == MODE_IRQ { CpuRegisters { r13_irq: v, ..self } }
        else if index == 13 && m == MODE_SVC { CpuRegisters { r13_svc: v, ..self } }
        else if index == 14 && m == MODE_FIQ { CpuRegisters { r14_fiq: v, ..self } }
        else if index == 14 && m == MODE_IRQ { CpuRegisters { r14_irq: v, ..self } }
        else if index == 14 && m == MODE_SVC { CpuRegisters { r14_svc: v, ..self } }
        else { self.write_user(index, v) }
    }

    /// The registers after writing user-mode register `index` (no change
    /// for an index above 15).
    pub open spec fn write_user(self, index: int, v: u32) -> CpuRegisters {
        if index == 0 { CpuRegisters { r0: v, ..self } }
        else if index == 1 { CpuRegisters { r1: v, ..self } }
        else if index == 2 { CpuRegisters { r2: v, ..self } }
        else if index == 3 { CpuRegisters { r3: v, ..self } }
        else if index == 4 { CpuRegisters { r4: v, ..self } }
        else if index == 5 { CpuRegisters { r5: v, ..self } }
        else if index == 6 { CpuRegisters { r6: v, ..self } }
        else if index == 7 { CpuRegisters { r7: v, ..self } }
        else if index == 8 { CpuRegisters { r8: v, ..self } }
        else if index == 9 { CpuRegisters { r9: v, ..self } }
        else if index == 10 { CpuRegisters { r10: v, ..self } }
        else if index == 11 { CpuRegisters { r11: v, ..self } }
        else if index == 12 { CpuRegisters { r12: v, ..self } }
        else if index == 13 { CpuRegisters { r13: v, ..self } }
        else if index == 14 { CpuRegisters { r14: v, ..self } }
        else if index == 15 { CpuRegisters { r15: v, ..self } }
        else { self }
    }

    /// The saved status register of the current mode (the status register
    /// itself in a mode without one).
    pub open spec fn spsr(self) -> u32 {
        let m = self.mode();
        if m == MODE_FIQ { self.spsr_fiq } else if m == MODE_IRQ { self.spsr_irq }
        else if m == MODE_SVC { self.spsr_svc } else { self.cpsr }
    }

    /// The registers after writing the saved status register of the current
    /// mode (no change in a mode without one).
    pub open spec fn with_spsr(self, v: u32) -> CpuRegisters {
        let m = self.mode();
        if m == MODE_FIQ { CpuRegisters { spsr_fiq: v, ..self } }
        else if m == MODE_IRQ { CpuRegisters { spsr_irq: v, ..self } }
        else if m == MODE_SVC { CpuRegisters { spsr_svc: v, ..self } }
        else { self }
    }

    /// The status register with its mode bits replaced.
    pub open spec fn with_mode(self, mode: u32) -> CpuRegisters {
        CpuRegisters { cpsr: (self.cpsr & !0x1Fu32) | (mode & 0x1F), ..self }
    }
}

/// The registers at power-on: all zero but the stack pointers and the
/// status register, which selects system mode.
pub open spec fn power_on_registers() -> CpuRegisters {
    CpuRegisters {
        r0: 0, r1: 0, r2: 0, r3: 0, r4: 0, r5: 0, r6: 0, r7: 0,
        r8: 0, r8_fiq: 0, r9: 0, r9_fiq: 0, r10: 0, r10_fiq: 0, r11: 0, r11_fiq: 0,
        r12: 0, r12_fiq: 0, r13_fiq: 0, r13_irq: 0x03007fa0, r13_svc: 0x03007fe0,
        r13: 0x03007f00, r14_fiq: 0, r14_irq: 0, r14_svc: 0, r14: 0, r15: 0,
        cpsr: 0x0000001F, spsr_fiq: 0, spsr_irq: 0, spsr_svc: 0,
    }
}

impl Default for CpuRegisters {
    fn default() -> (r: Self)
        ensures
            r == power_on_registers(),
    {
        Self {
            r0: 0,
            r1: 0,
            r2: 0,
            r3: 0,
            r4: 0,
            r5: 0,
            r6: 0,
            r7: 0,
            r8: 0,
            r8_fiq: 0,
            r9: 0,
            r9_fiq: 0,
            r10: 0,
            r10_fiq: 0,
            r11: 0,
            r11_fiq: 0,
            r12: 0,
            r12_fiq: 0,
            r13_fiq: 0,
            r13_irq: 0x03007fa0,
            r13_svc: 0x03007fe0,
            r13: 0x03007f00,
            r14_fiq: 0,
            r14_irq: 0,
            r14_svc: 0,
            r14: 0,
            r15: 0,
            cpsr: 0x0000001F,
            spsr_fiq: 0,
            spsr_irq: 0,
            spsr_svc: 0,
        }
    }
}

/// Whether an instruction's condition holds for the flags of `cpsr`.
pub open spec fn condition_holds(cpsr: u32, opcode: u32) -> bool {
    let n = bit32(cpsr, 31);
    let z = bit32(cpsr, 30);
    let c = bit32(cpsr, 29);
    let v = bit32(cpsr, 28);
    let cond = (opcode >> 28u32) & 0xF;
    if cond == 0x0 { z }
    else if cond == 0x1 { !z }
    else if cond == 0x2 { c }
    else if cond == 0x3 { !c }
    else if cond == 0x4 { n }
    else if cond == 0x5 { !n }
    else if cond == 0x6 { v }
    else if cond == 0x7 { !v }
    else if cond == 0x8 { c && !z }
    else if cond == 0x9 { !c || z }
    else if cond == 0xA { n == v }
    else if cond == 0xB { n != v }
    else if cond == 0xC { !z && n == v }
    else if cond == 0xD { z || n != v }
    else if cond == 0xE { true }
    else { false }
}

/// The ARM7 core.
pub struct Cpu {
    pub registers: CpuRegisters,
    pub running: bool,
    pub pipeline: [u32; 2],
    pub flushed: bool,
    pub cyc: u64,
    pub trace: bool,
}

impl Cpu {
    /// The register file.
    pub open spec fn regs(&self) -> CpuRegisters {
        self.registers
    }

    /// Whether the core runs.
    pub open spec fn is_running(&self) -> bool {
        self.running
    }

    /// Whether tracing is on.
    pub open spec fn is_tracing(&self) -> bool {
        self.trace
    }

    /// The two prefetched instructions.
    pub open spec fn prefetched(&self) -> Seq<u32> {
        self.pipeline@
    }

    /// Whether the pipeline was refilled by the current instruction.
    pub open spec fn was_flushed(&self) -> bool {
        self.flushed
    }

    /// Clock cycles not yet spent on instructions.
    pub open spec fn pending_cycles(&self) -> u64 {
        self.cyc
    }

    /// A core that is not running, with the power-on registers.
    pub fn new() -> (r: Self)
        ensures
            r.regs() == power_on_registers(),
            !r.is_running(),
            !r.is_tracing(),
            r.prefetched() == seq![0u32, 0u32],
            !r.was_flushed(),
            r.pending_cycles() == 0,
    {
        let r = Self {
            registers: CpuRegisters::default(),
            pipeline: [0; 2],
            flushed: false,
            running: false,
            cyc: 0,
            trace: false,
        };
        assert(r.pipeline@ =~= seq![0u32, 0u32]);
        r
    }
}

impl Cpu {
    /// Everything but the register file is as in `other`.
    pub open spec fn same_but_registers(self, other: Cpu) -> bool {
        &&& self.is_running() == other.is_running()
        &&& self.is_tracing() == other.is_tracing()
        &&& self.prefetched() == other.prefetched()
        &&& self.was_flushed() == other.was_flushed()
        &&& self.pending_cycles() == other.pending_cycles()
    }

    /// The address of the instruction being executed: two words behind the
    /// program counter, which runs ahead with the prefetch.
    pub fn current_pc_arm(&self) -> (r: u32)
        requires
            self.regs().r15 >= 8,
        ensures
            r == self.regs().r15 - 8,
    {
        self.registers.r15 - 8
    }

    /// Writes the saved status register of the current mode.
    pub fn set_spsr(&mut self, spsr: u32)
        ensures
            final(self).regs() == old(self).regs().with_spsr(spsr),
            final(self).same_but_registers(*old(self)),
    {
        match self.registers.cpsr & 0x1F {
            0x11 => self.registers.spsr_fiq = spsr,
            0x12 => self.registers.spsr_irq = spsr,
            0x13 => self.registers.spsr_svc = spsr,
            _ => {},
        }
    }

    /// The saved status register of the current mode.
    pub fn get_spsr(&self) -> (r: u32)
        ensures
            r == self.regs().spsr(),
    {
        if (self.registers.cpsr & 0x1f) == 0x11 {
            self.registers.spsr_fiq
        } else if (self.registers.cpsr & 0x1f) == 0x12 {
            self.registers.spsr_irq
        } else if (self.registers.cpsr & 0x1f) == 0x13 {
            self.registers.spsr_svc
        } else {
            self.registers.cpsr
        }
    }

    /// Register `index` as the current mode sees it.
    pub fn get_register_by_index(&self, index: usize) -> (r: u32)
        ensures
            r == self.regs().read(index as int),
    {
        let fiq = (self.registers.cpsr & 0x1f) == 0x11;
        let irq = (self.registers.cpsr & 0x1f) == 0x12;
        let svc = (self.registers.cpsr & 0x1f) == 0x13;
        match index {
            8 if fiq => self.registers.r8_fiq,
            9 if fiq => self.registers.r9_fiq,
            10 if fiq => self.registers.r10_fiq,
            11 if fiq => self.registers.r11_fiq,
            12 if fiq => self.registers.r12_fiq,
            13 if fiq => self.registers.r13_fiq,
            13 if irq => self.registers.r13_irq,
            13 if svc => self.registers.r13_svc,
            14 if fiq => self.registers.r14_fiq,
            14 if irq => self.registers.r14_irq,
            14 if svc => self.registers.r14_svc,
            _ => self.get_user_register_by_index(index),
        }
    }

    /// User-mode register `index`.
    pub fn get_user_register_by_index(&self, index: usize) -> (r: u32)
        ensures
            r == self.regs().read_user(index as int),
    {
        match index {
            0 => self.registers.r0,
            1 => self.registers.r1,
            2 => self.registers.r2,
            3 => self.registers.r3,
            4 => self.registers.r4,
            5 => self.registers.r5,
            6 => self.registers.r6,
            7 => self.registers.r7,
            8 => self.registers.r8,
            9 => self.registers.r9,
            10 => self.registers.r10,
            11 => self.registers.r11,
            12 => self.registers.r12,
            13 => self.registers.r13,
            14 => self.registers.r14,
            15 => self.registers.r15,
            _ => self.registers.r0,
        }
    }

    /// Writes register `index` as the current mode sees it.
    pub fn set_register_by_index(&mut self, index: usize, value: u32)
        ensures
            final(self).regs() == old(self).regs().write(index as int, value),
            final(self).same_but_registers(*old(self)),
    {
        let fiq = (self.registers.cpsr & 0x1f) == 0x11;
        let irq = (self.registers.cpsr & 0x1f) == 0x12;
        let svc = (self.registers.cpsr & 0x1f) == 0x13;
        match index {
            8 if fiq => self.registers.r8_fiq = value,
            9 if fiq => self.registers.r9_fiq = value,
            10 if fiq => self.registers.r10_fiq = value,
            11 if fiq => self.registers.r11_fiq = value,
            12 if fiq => self.registers.r12_fiq = value,
            13 if fiq => self.registers.r13_fiq = value,
            13 if irq => self.registers.r13_irq = value,
            13 if svc => self.registers.r13_svc = value,
            14 if fiq => self.registers.r14_fiq = value,
            14 if irq => self.registers.r14_irq = value,
            14 if svc => self.registers.r14_svc = value,
            _ => self.set_user_register_by_index(index, value),
        }
    }

    /// Writes user-mode register `index`.
    pub fn set_user_register_by_index(&mut self, index: usize, value: u32)
        ensures
            final(self).regs() == old(self).regs().write_user(index as int, value),
            final(self).same_but_registers(*old(self)),
    {
        match index {
            0 => self.registers.r0 = value,
            1 => self.registers.r1 = value,
            2 => self.registers.r2 = value,
            3 => self.registers.r3 = value,
            4 => self.registers.r4 = value,
            5 => self.registers.r5 = value,
            6 => self.registers.r6 = value,
            7 => self.registers.r7 = value,
            8 => self.registers.r8 = value,
            9 => self.registers.r9 = value,
            10 => self.registers.r10 = value,
            11 => self.registers.r11 = value,
            12 => self.registers.r12 = value,
            13 => self.registers.r13 = value,
            14 => self.registers.r14 = value,
            15 => self.registers.r15 = value,
            _ => {},
        }
    }

    /// Switches to processor mode `mode`.
    pub fn set_mode(&mut self, mode: u32)
        ensures
            final(self).regs() == old(self).regs().with_mode(mode),
            final(self).same_but_registers(*old(self)),
    {
        self.registers.cpsr = (self.registers.cpsr & !0x1Fu32) | (mode & 0x1F);
    }

    /// Whether the condition of `opcode` holds.
    fn check_conditions(&self, opcode: u32) -> (r: bool)
        ensures
            r == condition_holds(self.regs().cpsr, opcode),
    {
        let condition_code = (opcode >> 28u32) & 0xF;
        let n = self.registers.cpsr.check_bit(31);
        let z = self.registers.cpsr.check_bit(30);
        let c = self.registers.cpsr.check_bit(29);
        let v = self.registers.cpsr.check_bit(28);
        match condition_code {
            0x0 => z,
            0x1 => !z,
            0x2 => c,
            0x3 => !c,
            0x4 => n,
            0x5 => !n,
            0x6 => v,
            0x7 => !v,
            0x8 => c && !z,
            0x9 => !c || z,
            0xA => n == v,
            0xB => n != v,
            0xC => !z && (n == v),
            0xD => z || (n != v),
            0xE => true,
            _ => false,
        }
    }
}

/// The address the pipeline is refilled from: the program counter with its
/// low two bits cleared.
pub open spec fn refill_address(regs: CpuRegisters) -> u32 {
    regs.r15 & !0x03u32
}

/// Whether the refill address leaves room for the prefetch arithmetic.
pub open spec fn refill_fits(regs: CpuRegisters) -> bool {
    refill_address(regs) + 8 <= u32::MAX
}

/// The registers after a pipeline refill: the program counter two words
/// past the refill address.
pub open spec fn refilled_registers(regs: CpuRegisters) -> CpuRegisters {
    CpuRegisters { r15: (refill_address(regs) + 8) as u32, ..regs }
}

/// The two instructions a refill fetches.
pub open spec fn refilled_pipeline(regs: CpuRegisters, mem: Seq<u8>) -> Seq<u32> {
    seq![arm_word(mem, refill_address(regs)), arm_word(mem, (refill_address(regs) + 4) as u32)]
}

impl Cpu {
    /// Whether `self` is core `old` after an instruction that leaves the
    /// registers `regs`, refilling the pipeline from `mem` when `flush`.
    pub open spec fn ends_with(self, old: Cpu, regs: CpuRegisters, flush: bool, mem: Seq<u8>) -> bool {
        &&& self.is_running() == old.is_running()
        &&& self.is_tracing() == old.is_tracing()
        &&& self.pending_cycles() == old.pending_cycles()
        &&& if flush {
            &&& self.regs() == refilled_registers(regs)
            &&& self.prefetched() == refilled_pipeline(regs, mem)
            &&& self.was_flushed()
        } else {
            &&& self.regs() == regs
            &&& self.prefetched() == old.prefetched()
            &&& self.was_flushed() == old.was_flushed()
        }
    }

    /// Refills the pipeline from the program counter (word aligned) and
    /// moves the program counter two words on.
    pub fn flush_pipeline<'b>(&mut self, bus: &ArmBus<'b>)
        requires
            arm_memory_ok(bus.memory()),
            refill_fits(old(self).regs()),
        ensures
            final(self).ends_with(*old(self), old(self).regs(), true, bus.memory()),
    {
        let pc = self.registers.r15 & !0x03u32;
        self.registers.r15 = pc + 8;
        self.pipeline[0] = bus.fetch_32(pc);
        self.pipeline[1] = bus.fetch_32(pc + 4);
        self.flushed = true;
        assert(self.pipeline@ =~= refilled_pipeline(old(self).regs(), bus.memory()));
    }

    /// Starts or stops the core. Starting a stopped core enters supervisor
    /// mode with interrupts off and runs from address 0; the old program
    /// counter goes to the supervisor link register.
    pub fn reset<'b>(&mut self, enable: bool, bus: &ArmBus<'b>)
        requires
            arm_memory_ok(bus.memory()),
        ensures
            final(self).is_running() == enable,
            final(self).is_tracing() == old(self).is_tracing(),
            final(self).pending_cycles() == old(self).pending_cycles(),
            !old(self).is_running() && enable ==> {
                let regs = old(self).regs();
                let r1 = CpuRegisters { r14_svc: regs.r15, ..regs }.with_mode(MODE_SVC);
                let r2 = CpuRegisters {
                    cpsr: ((r1.cpsr & !(1u32 << 5u32)) | (1u32 << 6u32)) | (1u32 << 7u32),
                    r15: 0,
                    ..r1
                };
                &&& final(self).regs() == refilled_registers(r2)
                &&& final(self).prefetched() == refilled_pipeline(r2, bus.memory())
                &&& final(self).was_flushed()
            },
            !(!old(self).is_running() && enable) ==> {
                &&& final(self).regs() == old(self).regs()
                &&& final(self).prefetched() == old(self).prefetched()
                &&& final(self).was_flushed() == old(self).was_flushed()
            },
    {
        if !self.running && enable {
            self.registers.r14_svc = self.registers.r15;
            self.set_mode(0x13);
            self.registers.cpsr = self.registers.cpsr.clear_bit(5).set_bit(6).set_bit(7);
            self.registers.r15 = 0x00;
            proof { assert(refill_address(self.regs()) == 0) by { lemma_arm_constants(); } }
            self.flush_pipeline(bus);
        }
        self.running = enable;
    }

    pub fn is_single_data_swap(opcode: u32) -> (r: bool)
        ensures
            r == (opcode & 0xFB00FF0 == 0x1000090),
    {
        (opcode & 0xFB00FF0) == 0x1000090
    }

    pub fn is_data_processing(opcode: u32) -> (r: bool)
        ensures
            r == (opcode & 0x0C00_0000 == 0),
    {
        (opcode & 0x0C00_0000) == 0
    }

    pub fn is_branch_and_branch_with_link(opcode: u32) -> (r: bool)
        ensures
            r == (opcode & 0x0F00_0000 == 0x0A00_0000 || opcode & 0x0F00_0000 == 0x0B00_0000),
    {
        let extracted_format = opcode & 0x0F00_0000;
        extracted_format == 0x0A00_0000 || extracted_format == 0x0B00_0000
    }

    pub fn is_psr_transfer_msr(opcode: u32) -> (r: bool)
        ensures
            r == (opcode & 0x0DB0_F000 == 0x0120_F000),
    {
        (opcode & 0x0DB0_F000) == 0x0120_F000
    }

    pub fn is_psr_transfer_mrs(opcode: u32) -> (r: bool)
        ensures
            r == (opcode & 0x0FBF_0000 == 0x010F_0000),
    {
        (opcode & 0x0FBF_0000) == 0x010F_0000
    }

    pub fn is_block_data_transfer(opcode: u32) -> (r: bool)
        ensures
            r == (opcode & 0x0E00_0000 == 0x0800_0000),
    {
        (opcode & 0x0E00_0000) == 0x0800_0000
    }

    pub fn is_single_data_transfer(opcode: u32) -> (r: bool)
        ensures
            r == (opcode & 0x0C00_0000 == 0x0400_0000),
    {
        (opcode & 0x0C00_0000) == 0x0400_0000
    }

    pub fn is_halfword_data_transfer_register(opcode: u32) -> (r: bool)
        ensures
            r == (opcode & 0x0E40_0F90 == 0x0000_0090),
    {
        (opcode & 0x0E40_0F90) == 0x0000_0090
    }

    pub fn is_halfword_data_transfer_immediate(opcode: u32) -> (r: bool)
        ensures
            r == (opcode & 0x0E40_0090 == 0x0040_0090),
    {
        (opcode & 0x0E40_0090) == 0x0040_0090
    }

    pub fn is_software_interrupt(opcode: u32) -> (r: bool)
        ensures
            r == (opcode & 0x0F00_0000 == 0x0F00_0000),
    {
        (opcode & 0x0F00_0000) == 0x0F00_0000
    }

    pub fn is_multiply(opcode: u32) -> (r: bool)
        ensures
            r == (opcode & 0x0F80_00F0 == 0x0000_0090),
    {
        (opcode & 0x0F80_00F0) == 0x0000_0090
    }
}

/// The top bit of a word: the sign of a two's complement number.
pub open spec fn msb(x: u32) -> bool {
    x >= 0x8000_0000
}

/// Signed overflow of `a + b` giving `r`: the operands agree in sign and
/// the result does not.
pub open spec fn add_overflows(a: u32, b: u32, r: u32) -> bool {
    msb(a) == msb(b) && msb(r) != msb(a)
}

/// Signed overflow of `a - b` giving `r`: the operands differ in sign and
/// the result's sign differs from `a`'s.
pub open spec fn sub_overflows(a: u32, b: u32, r: u32) -> bool {
    msb(a) != msb(b) && msb(r) != msb(a)
}

proof fn lemma_flag_bits(a: u32, b: u32, r: u32)
    by (bit_vector)
    ensures
        ((r >> 31u32) != 0) == (r >= 0x8000_0000),
        (r & 0x80000000 != 0) == (r >= 0x8000_0000),
        ((r as i32) < 0) == (r >= 0x8000_0000),
        (((a ^ b) & 0x80000000 == 0) && ((a ^ r) & 0x80000000 != 0)) == ((a >= 0x8000_0000) == (b
            >= 0x8000_0000) && (r >= 0x8000_0000) != (a >= 0x8000_0000)),
        ((!(a ^ b) & (a ^ r) & 0x80000000) != 0) == ((a >= 0x8000_0000) == (b >= 0x8000_0000) && (r
            >= 0x8000_0000) != (a >= 0x8000_0000)),
        (((a ^ b) & 0x80000000 != 0) && ((a ^ r) & 0x80000000 != 0)) == ((a >= 0x8000_0000) != (b
            >= 0x8000_0000) && (r >= 0x8000_0000) != (a >= 0x8000_0000)),
        (((a ^ b) & (a ^ r) & 0x80000000) != 0) == ((a >= 0x8000_0000) != (b >= 0x8000_0000) && (r
            >= 0x8000_0000) != (a >= 0x8000_0000)),
{
}

proof fn lemma_opcode_fields(a: u32)
    by (bit_vector)
    ensures
        (a >> 16u32) & 0xF <= 15,
        (a >> 12u32) & 0xF <= 15,
        (a >> 8u32) & 0xF <= 15,
        a & 0xF <= 15,
        (a & 0x60) >> 5u32 <= 3,
        (a & 0xF0000) >> 16u32 == (a >> 16u32) & 0xF,
        (a & 0xF000) >> 12u32 == (a >> 12u32) & 0xF,
        (a & 0xF00) >> 8u32 == (a >> 8u32) & 0xF,
        (a & 0x1E00000) >> 21u32 <= 15,
{
}

/// The register number in bits 16..20.
pub open spec fn rn_of(opcode: u32) -> int {
    ((opcode >> 16u32) & 0xF) as int
}

/// The register number in bits 12..16.
pub open spec fn rd_of(opcode: u32) -> int {
    ((opcode >> 12u32) & 0xF) as int
}

/// The register number in bits 8..12.
pub open spec fn rs_of(opcode: u32) -> int {
    ((opcode >> 8u32) & 0xF) as int
}

/// The register number in bits 0..4.
pub open spec fn rm_of(opcode: u32) -> int {
    (opcode & 0xF) as int
}

/// The data-processing operation in bits 21..25.
pub open spec fn dp_op(opcode: u32) -> u32 {
    (opcode & 0x1E00000) >> 21u32
}

/// How far ahead of the instruction R15 reads: three words when the
/// second operand is a register shifted by a register, else two.
pub open spec fn pc_offset(opcode: u32) -> int {
    if !bit32(opcode, 25) && bit32(opcode, 4) { 12 } else { 8 }
}

/// R15 as an operand reads it.
pub open spec fn pc_operand(regs: CpuRegisters, opcode: u32) -> u32 {
    (regs.r15 - 8 + pc_offset(opcode)) as u32
}

/// Whether an operand reads R15.
pub open spec fn reads_pc(opcode: u32) -> bool {
    rn_of(opcode) == 15 || (!bit32(opcode, 25) && rm_of(opcode) == 15)
}

/// The first operand.
pub open spec fn dp_operand1(regs: CpuRegisters, opcode: u32) -> u32 {
    if rn_of(opcode) == 15 { pc_operand(regs, opcode) } else { regs.read(rn_of(opcode)) }
}

/// The shift type in bits 5..7.
pub open spec fn shift_type_of(opcode: u32) -> ShiftType {
    match ShiftType::from_u32_spec((opcode & 0x60) >> 5u32) {
        Some(t) => t,
        None => ShiftType::Lsl,
    }
}

/// The second operand and the shifter's carry out: a rotated immediate,
/// or a register shifted by an immediate or by a register.
pub open spec fn dp_operand2(regs: CpuRegisters, opcode: u32) -> (u32, bool) {
    let carry = bit32(regs.cpsr, 29);
    if bit32(opcode, 25) {
        let imm = opcode & 0xFF;
        let rot = (opcode & 0xF00) >> 8u32;
        if rot > 0 { ror_spec(imm, (rot * 2) as nat, carry, false) } else { (imm, carry) }
    } else {
        let v = if rm_of(opcode) == 15 { pc_operand(regs, opcode) } else { regs.read(rm_of(opcode)) };
        let by_register = bit32(opcode, 4);
        let amount = if by_register { regs.read(rs_of(opcode)) & 0xFF } else { (opcode & 0xF80) >> 7u32 };
        barrel_shift_spec(v, shift_type_of(opcode), amount as nat, carry, !by_register)
    }
}

/// The borrow that a subtract with carry takes: the inverted carry flag.
pub open spec fn borrow_in(carry: bool) -> int {
    if carry { 0 } else { 1 }
}

/// What operation `op` makes of `a` and `b`: the result to write (`None`
/// for the test operations) and the N, Z, C and V flags. `shift_carry` is
/// the shifter's carry, `cpsr` gives the old carry and overflow flags.
pub open spec fn dp_alu(op: u32, a: u32, b: u32, shift_carry: bool, cpsr: u32) -> (Option<u32>, bool, bool, bool, bool) {
    let c0 = bit32(cpsr, 29);
    let v0 = bit32(cpsr, 28);
    if op == 0x0 {
        let r = a & b;
        (Some(r), msb(r), r == 0, shift_carry, v0)
    } else if op == 0x1 {
        let r = a ^ b;
        (Some(r), msb(r), r == 0, shift_carry, v0)
    } else if op == 0x2 {
        let r = wrap32(a - b);
        (Some(r), msb(r), r == 0, a >= b, sub_overflows(a, b, r))
    } else if op == 0x3 {
        let r = wrap32(b - a);
        (Some(r), msb(r), r == 0, b >= a, sub_overflows(b, a, r))
    } else if op == 0x4 {
        let r = wrap32(a + b);
        (Some(r), msb(r), r == 0, a + b > u32::MAX, add_overflows(a, b, r))
    } else if op == 0x5 {
        let r = wrap32(a + b + (if shift_carry { 1int } else { 0 }));
        (Some(r), msb(r), r == 0, a + b + (if shift_carry { 1int } else { 0 }) > u32::MAX, add_overflows(a, b, r))
    } else if op == 0x6 {
        let r = wrap32(a - b - borrow_in(shift_carry));
        (Some(r), msb(r), r == 0, a >= b + borrow_in(shift_carry), sub_overflows(a, b, r))
    } else if op == 0x7 {
        let r = wrap32(b - a - borrow_in(shift_carry));
        (Some(r), msb(r), r == 0, true, sub_overflows(b, a, r))
    } else if op == 0x8 {
        let r = a & b;
        (None, msb(r), r == 0, shift_carry, v0)
    } else if op == 0x9 {
        let r = a ^ b;
        (None, msb(r), r == 0, shift_carry, v0)
    } else if op == 0xA {
        let r = wrap32(a - b);
        (None, msb(r), r == 0, a >= b, sub_overflows(a, b, r))
    } else if op == 0xB {
        let r = wrap32(a + b);
        (None, msb(r), r == 0, a + b > u32::MAX, add_overflows(a, b, r))
    } else if op == 0xC {
        let r = a | b;
        (Some(r), msb(r), r == 0, shift_carry, v0)
    } else if op == 0xD {
        (Some(b), msb(b), b == 0, shift_carry, v0)
    } else if op == 0xE {
        let r = a & !b;
        (Some(r), msb(r), r == 0, shift_carry, v0)
    } else {
        let r = !b;
        (Some(r), msb(r), r == 0, shift_carry, v0)
    }
}

/// The status register with its N, Z, C and V flags replaced.
pub open spec fn with_flags(cpsr: u32, n: bool, z: bool, c: bool, v: bool) -> u32 {
    let c1 = if n { cpsr | (1u32 << 31usize) } else { cpsr & !(1u32 << 31usize) };
    let c2 = if z { c1 | (1u32 << 30usize) } else { c1 & !(1u32 << 30usize) };
    let c3 = if c { c2 | (1u32 << 29usize) } else { c2 & !(1u32 << 29usize) };
    if v { c3 | (1u32 << 28usize) } else { c3 & !(1u32 << 28usize) }
}

/// The test operations, which write no register and never refill the
/// pipeline.
pub open spec fn dp_is_test(op: u32) -> bool {
    op == 0x8 || op == 0x9 || op == 0xA || op == 0xB
}

/// The registers after a data-processing instruction whose condition holds.
pub open spec fn dp_registers(regs: CpuRegisters, opcode: u32) -> CpuRegisters {
    let (b, shift_carry) = dp_operand2(regs, opcode);
    let (written, n, z, c, v) = dp_alu(dp_op(opcode), dp_operand1(regs, opcode), b, shift_carry, regs.cpsr);
    let rd = rd_of(opcode);
    let r1 = match written {
        Some(r) => regs.write(rd, r),
        None => regs,
    };
    let s = bit32(opcode, 20);
    if rd == 15 {
        if s {
            let r2 = CpuRegisters { cpsr: r1.spsr(), ..r1 };
            r2.with_mode(r2.cpsr & 0x1F)
        } else {
            r1
        }
    } else if s {
        CpuRegisters { cpsr: with_flags(r1.cpsr, n, z, c, v), ..r1 }
    } else {
        r1
    }
}

/// Whether a data-processing instruction refills the pipeline: it targets
/// R15 and is not a test.
pub open spec fn dp_refills(opcode: u32) -> bool {
    rd_of(opcode) == 15 && !dp_is_test(dp_op(opcode))
}

/// The inputs on which a data-processing instruction runs without an
/// arithmetic fault: R15 as an operand needs room for its offset, RSC must
/// not go below zero, and a refill needs room for the prefetch.
pub open spec fn dp_defined(regs: CpuRegisters, opcode: u32) -> bool {
    condition_holds(regs.cpsr, opcode) ==> {
        &&& reads_pc(opcode) ==> regs.r15 >= 8 && regs.r15 - 8 + pc_offset(opcode) <= u32::MAX
        &&& dp_op(opcode) == 0x7 ==> dp_operand2(regs, opcode).0 >= dp_operand1(regs, opcode)
            + borrow_in(dp_operand2(regs, opcode).1)
        &&& dp_refills(opcode) ==> refill_fits(dp_registers(regs, opcode))
    }
}

impl Cpu {
    /// The two operands of a data-processing instruction and the shifter's
    /// carry out.
    fn dp_operands(&self, opcode: u32) -> (r: (u32, u32, bool))
        requires
            reads_pc(opcode) ==> self.regs().r15 >= 8 && self.regs().r15 - 8 + pc_offset(opcode) <= u32::MAX,
        ensures
            r.0 == dp_operand1(self.regs(), opcode),
            (r.1, r.2) == dp_operand2(self.regs(), opcode),
    {
        proof { lemma_opcode_fields(opcode); }
        let is_second_op_immediate = opcode.check_bit(25);
        let operand_one_index = ((opcode & 0xF0000) >> 16u32) as usize;
        let mut operand1 = self.get_register_by_index(operand_one_index);
        let mut operand2: u32;
        let mut carry = self.registers.cpsr.check_bit(29);
        let shift_by_register = opcode.check_bit(4);
        let pc_adjustment: u32 = if !is_second_op_immediate && shift_by_register { 12 } else { 8 };
        if operand_one_index == 15 {
            operand1 = self.current_pc_arm() + pc_adjustment;
        }
        if is_second_op_immediate {
            let second_op_immediate_value = opcode & 0xFF;
            let rotate_amount = ((opcode & 0xF00) >> 8u32) as usize;
            operand2 = if rotate_amount > 0 {
                second_op_immediate_value.ror(rotate_amount * 2, &mut carry, false)
            } else {
                second_op_immediate_value
            };
        } else {
            let second_operand_register_index = (opcode & 0xF) as usize;
            operand2 = self.get_register_by_index(second_operand_register_index);
            if second_operand_register_index == 15 {
                operand2 = self.current_pc_arm() + pc_adjustment;
            }
            let shift_register_index = ((opcode & 0xF00) >> 8u32) as usize;
            let shift_amount = if shift_by_register {
                self.get_register_by_index(shift_register_index) & 0xFF
            } else {
                (opcode & 0xF80) >> 7u32
            };
            let shift_direction = match ShiftType::from_u32((opcode & 0x60) >> 5u32) {
                Some(t) => t,
                None => ShiftType::Lsl,
            };
            operand2 = operand2.barrel_shift(shift_direction, shift_amount as usize, &mut carry, !shift_by_register);
        }
        (operand1, operand2, carry)
    }

    /// The ALU: operation `data_processing_opcode` on the operands, giving
    /// the result to write (none for a test) and the N, Z, C, V flags.
    #[verifier::spinoff_prover]
    #[verifier::rlimit(60)]
    fn dp_alu_exec(&self, data_processing_opcode: u32, operand1: u32, operand2: u32, carry: bool) -> (r: (Option<u32>, bool, bool, bool, bool))
        requires
            data_processing_opcode <= 15,
            data_processing_opcode == 0x7 ==> operand2 >= operand1 + borrow_in(carry),
        ensures
            r == dp_alu(data_processing_opcode, operand1, operand2, carry, self.regs().cpsr),
    {
        let mut n = self.registers.cpsr.check_bit(31);
        let mut z = self.registers.cpsr.check_bit(30);
        let mut c = self.registers.cpsr.check_bit(29);
        let mut v = self.registers.cpsr.check_bit(28);
        let mut written: Option<u32> = None;

        match data_processing_opcode {
            0xA => {
                // cmp
                let result = operand1.wrapping_sub(operand2);
                proof { lemma_flag_bits(operand1, operand2, result); }
                n = (result >> 31u32) != 0;
                z = result == 0;
                c = operand1 >= operand2;
                v = ((operand1 ^ operand2) & (operand1 ^ result) & 0x80000000) != 0;
            },
            0x00 => {
                // and
                let result = operand1 & operand2;
                proof { lemma_flag_bits(operand1, operand2, result); }
                n = result & 0x80000000 != 0;
                z = result == 0;
                c = carry;
                written = Some(result);
            },
            0x01 => {
                // eor
                let result = operand1 ^ operand2;
                proof { lemma_flag_bits(operand1, operand2, result); }
                n = (result as i32) < 0;
                z = result == 0;
                c = carry;
                written = Some(result);
            },
            0x02 => {
                // sub
                let result = operand1.wrapping_sub(operand2);
                proof { lemma_flag_bits(operand1, operand2, result); }
                n = result & 0x80000000 != 0;
                z = result == 0;
                c = operand1 >= operand2;
                v = ((operand1 ^ operand2) & 0x80000000 != 0) && ((operand1 ^ result) & 0x80000000 != 0);
                written = Some(result);
            },
            0x03 => {
                // rsb
                let result = operand2.wrapping_sub(operand1);
                proof { lemma_flag_bits(operand2, operand1, result); }
                n = result & 0x80000000 != 0;
                z = result == 0;
                c = operand2 >= operand1;
                v = ((operand2 ^ operand1) & 0x80000000 != 0) && ((operand2 ^ result) & 0x80000000 != 0);
                written = Some(result);
            },
            0x04 => {
                // add
                let result = operand1.wrapping_add(operand2);
                proof { lemma_flag_bits(operand1, operand2, result); }
                n = result & 0x80000000 != 0;
                z = result == 0;
                c = operand1 as u64 + operand2 as u64 > u32::MAX as u64;
                v = ((operand1 ^ operand2) & 0x80000000 == 0) && ((operand1 ^ result) & 0x80000000 != 0);
                written = Some(result);
            },
            0x0e => {
                // bic
                let result = operand1 & !operand2;
                proof { lemma_flag_bits(operand1, operand2, result); }
                n = (result as i32) < 0;
                z = result == 0;
                c = carry;
                written = Some(result);
            },
            0x05 => {
                // adc
                let carry_in: u32 = if carry { 1 } else { 0 };
                let result64 = operand1 as u64 + operand2 as u64 + carry_in as u64;
                let result32 = operand1.wrapping_add(operand2).wrapping_add(carry_in);
                proof { lemma_flag_bits(operand1, operand2, result32); }
                n = result32 & 0x80000000 != 0;
                z = result32 == 0;
                c = result64 > u32::MAX as u64;
                v = ((operand1 ^ operand2) & 0x80000000 == 0) && ((operand1 ^ result32) & 0x80000000 != 0);
                written = Some(result32);
            },
            0x06 => {
                // sbc
                let borrow: u32 = if carry { 0 } else { 1 };
                let operand_with_borrow = operand2 as u64 + borrow as u64;
                let did_underflow = (operand1 as u64) < operand_with_borrow;
                let result = operand1.wrapping_sub(operand2).wrapping_sub(borrow);
                proof { lemma_flag_bits(operand1, operand2, result); }
                n = result & 0x80000000 != 0;
                z = result == 0;
                c = !did_underflow;
                v = ((operand1 ^ operand2) & (operand1 ^ result) & 0x80000000) != 0;
                written = Some(result);
            },
            0x07 => {
                // rsc
                let borrow: u64 = if carry { 0 } else { 1 };
                let (o1, o2) = (operand2, operand1);
                let operand_with_borrow = o2 as u64 + borrow;
                let result_with_borrow = o1 as u64 - operand_with_borrow;
                let result = result_with_borrow as u32;
                proof { lemma_flag_bits(o1, o2, result); }
                n = result & 0x80000000 != 0;
                z = result == 0;
                c = result_with_borrow <= u32::MAX as u64;
                v = ((o1 ^ o2) & (o1 ^ result) & 0x80000000) != 0;
                written = Some(result);
            },
            0x08 => {
                // tst
                let result = operand1 & operand2;
                proof { lemma_flag_bits(operand1, operand2, result); }
                n = (result as i32) < 0;
                z = result == 0;
                c = carry;
            },
            0x0c => {
                // orr
                let result = operand1 | operand2;
                proof { lemma_flag_bits(operand1, operand2, result); }
                n = result & 0x80000000 != 0;
                z = result == 0;
                c = carry;
                written = Some(result);
            },
            0x0f => {
                // mvn
                let result = !operand2;
                proof { lemma_flag_bits(operand1, operand2, result); }
                n = (result >> 31u32) != 0;
                z = result == 0;
                c = carry;
                written = Some(result);
            },
            0x0b => {
                // cmn
                let result = operand1.wrapping_add(operand2);
                proof { lemma_flag_bits(operand1, operand2, result); }
                n = result & 0x80000000 != 0;
                z = result == 0;
                c = operand1 as u64 + operand2 as u64 > u32::MAX as u64;
                v = (!(operand1 ^ operand2) & (operand1 ^ result) & 0x80000000) != 0;
            },
            0x0d => {
                // mov
                let result = operand2;
                proof { lemma_flag_bits(operand1, operand2, result); }
                n = result & 0x80000000 != 0;
                z = result == 0;
                c = carry;
                written = Some(result);
            },
            _ => {
                // teq
                let result = operand1 ^ operand2;
                proof { lemma_flag_bits(operand1, operand2, result); }
                n = (result as i32) < 0;
                z = result == 0;
                c = carry;
            },
        }
        (written, n, z, c, v)
    }

    /// A data-processing instruction: an ALU operation on the first operand
    /// (a register) and the second (a rotated immediate or a shifted
    /// register), writing Rd unless it is a test and setting the flags when
    /// asked; with Rd = R15 and the flags bit the saved status register is
    /// restored instead, and the pipeline is refilled.
    pub fn data_processing<'b>(&mut self, opcode: u32, bus: &'b mut ArmBus)
        requires
            arm_memory_ok(old(bus).memory()),
            dp_defined(old(self).regs(), opcode),
        ensures
            plain_done(
                *old(self),
                *final(self),
                old(bus).device(),
                final(bus).device(),
                opcode,
                dp_registers(old(self).regs(), opcode),
                dp_refills(opcode),
            ),
    {
        if !self.check_conditions(opcode) {
            return;
        }
        proof { lemma_opcode_fields(opcode); }
        let data_processing_opcode = (opcode & 0x1E00000) >> 21u32;
        let update_condition_flags = opcode.check_bit(20);
        let destination_register_index = ((opcode & 0xF000) >> 12u32) as usize;
        let ignore_pipeline_flush = data_processing_opcode == 0x0B || data_processing_opcode == 0x09
            || data_processing_opcode == 0x08 || data_processing_opcode == 0x0A;

        let (operand1, operand2, carry) = self.dp_operands(opcode);
        let (written, n, z, c, v) = self.dp_alu_exec(data_processing_opcode, operand1, operand2, carry);

        match written {
            Some(result) => self.set_register_by_index(destination_register_index, result),
            None => {},
        }

        if destination_register_index == 15 {
            if update_condition_flags {
                self.registers.cpsr = self.get_spsr();
                let mode = self.registers.cpsr & 0x1F;
                self.set_mode(mode);
            }
            if !ignore_pipeline_flush {
                self.flush_pipeline(bus);
            }
        }

        if update_condition_flags && destination_register_index != 15 {
            self.registers.cpsr = if n { self.registers.cpsr.set_bit(31) } else { self.registers.cpsr.clear_bit(31) };
            self.registers.cpsr = if z { self.registers.cpsr.set_bit(30) } else { self.registers.cpsr.clear_bit(30) };
            self.registers.cpsr = if c { self.registers.cpsr.set_bit(29) } else { self.registers.cpsr.clear_bit(29) };
            self.registers.cpsr = if v { self.registers.cpsr.set_bit(28) } else { self.registers.cpsr.clear_bit(28) };
        }
    }
}

/// The registers after a multiply whose condition holds: MUL writes the
/// low word of Rm * Rs to Rd, MLA the low word of Rm * Rs + Rn. With the
/// flags bit, N and Z follow the result.
pub open spec fn mul_registers(regs: CpuRegisters, opcode: u32) -> CpuRegisters {
    let rd = rn_of(opcode);
    let m = regs.read(rm_of(opcode));
    let sv = regs.read(rs_of(opcode));
    let acc = regs.read(rd_of(opcode));
    let accumulate = dp_op(opcode) == 1;
    let result = if accumulate { wrap32(wrap32(m * sv) + acc) } else { wrap32(m * sv) };
    let r1 = regs.write(rd, result);
    if bit32(opcode, 20) {
        CpuRegisters {
            cpsr: with_flags(r1.cpsr, msb(result), result == 0, bit32(regs.cpsr, 29), bit32(regs.cpsr, 28)),
            ..r1
        }
    } else {
        r1
    }
}

/// The multiplies this core knows (MUL and MLA), and room for a refill when
/// Rd is R15.
pub open spec fn mul_defined(regs: CpuRegisters, opcode: u32) -> bool {
    condition_holds(regs.cpsr, opcode) ==> {
        &&& dp_op(opcode) <= 1
        &&& rn_of(opcode) == 15 ==> refill_fits(mul_registers(regs, opcode))
    }
}

/// The branch offset: the signed 24-bit word offset, in bytes.
pub open spec fn branch_offset(opcode: u32) -> int {
    let imm = opcode & 0xFFFFFF;
    if imm >= 0x800000 { (imm - 0x1000000) * 4 } else { imm * 4 }
}

/// The registers after a branch whose condition holds, before the refill:
/// with the link bit, the link register gets the address of the next
/// instruction; the program counter moves by the offset.
pub open spec fn branch_registers(regs: CpuRegisters, opcode: u32) -> CpuRegisters {
    let r1 = if bit32(opcode, 24) { regs.write(14, (regs.r15 - 8 + 4) as u32) } else { regs };
    CpuRegisters { r15: wrap32(r1.r15 + branch_offset(opcode)), ..r1 }
}

/// The registers after a software interrupt, before the refill: the status
/// register is saved, the link register gets the return address, and the
/// core enters supervisor mode with IRQs off at the SWI vector.
pub open spec fn swi_registers(regs: CpuRegisters) -> CpuRegisters {
    let r1 = CpuRegisters {
        spsr_svc: regs.cpsr,
        r14_svc: wrap32(regs.r15 - 8),
        cpsr: (regs.cpsr & !(1u32 << 5usize)) | (1u32 << 7usize),
        ..regs
    };
    CpuRegisters { r15: 0x08, ..r1.with_mode(MODE_SVC) }
}

/// The source operand of MSR: a rotated immediate or Rm.
pub open spec fn psr_operand(regs: CpuRegisters, opcode: u32) -> u32 {
    if bit32(opcode, 25) {
        ror_spec(opcode & 0xFF, (((opcode & 0xF00) >> 8u32) * 2) as nat, bit32(regs.cpsr, 29), false).0
    } else {
        regs.read(rm_of(opcode))
    }
}

/// The registers after a status register transfer whose condition holds:
/// MRS copies the status register (or the saved one) to Rd; MSR writes the
/// masked bits of the operand into it.
pub open spec fn psr_registers(regs: CpuRegisters, opcode: u32) -> CpuRegisters {
    let to_cpsr = !bit32(opcode, 22);
    let fm: u32 = if bit32(opcode, 19) { 0xF0000000 } else { 0 };
    let cm: u32 = if bit32(opcode, 16) { 0x0FFFFFFF } else { 0 };
    let op2 = psr_operand(regs, opcode);
    if !bit32(opcode, 21) {
        regs.write(rd_of(opcode), if to_cpsr { regs.cpsr } else { regs.spsr() })
    } else if to_cpsr {
        CpuRegisters { cpsr: (regs.cpsr & !fm & !cm) | (op2 & (fm | cm)), ..regs }
    } else {
        regs.with_spsr((regs.spsr() & !fm & !cm) | (op2 & (fm | cm)))
    }
}

proof fn lemma_branch_offset(opcode: u32)
    by (bit_vector)
    ensures
        ((((opcode & 0xFFFFFF) << 8u32) as i32) >> 6u32) as int == if opcode & 0xFFFFFF >= 0x800000 {
            ((opcode & 0xFFFFFF) - 0x1000000) * 4
        } else {
            (opcode & 0xFFFFFF) * 4
        },
{
}

/// Whether core `b` and sound block `db` are core `a` and sound block `da`
/// after an instruction that leaves the sound block alone and, when its
/// condition holds, leaves the registers `regs`, refilling when `flush`.
pub open spec fn plain_done(a: Cpu, b: Cpu, da: Aica, db: Aica, opcode: u32, regs: CpuRegisters, flush: bool) -> bool {
    &&& db == da
    &&& condition_holds(a.regs().cpsr, opcode) ==> b.ends_with(a, regs, flush, da.wave_ram@)
    &&& !condition_holds(a.regs().cpsr, opcode) ==> b == a
}

/// The inputs on which a branch runs without a fault.
pub open spec fn branch_defined(regs: CpuRegisters, opcode: u32) -> bool {
    condition_holds(regs.cpsr, opcode) ==> regs.r15 >= 8 && refill_fits(branch_registers(regs, opcode))
}

/// Whether core `b` and sound block `db` are core `a` and sound block `da`
/// after a software interrupt (taken whatever its condition).
pub open spec fn swi_done(a: Cpu, b: Cpu, da: Aica, db: Aica) -> bool {
    db == da && b.ends_with(a, swi_registers(a.regs()), true, da.wave_ram@)
}

/// Whether core `b` and sound block `db` are core `a` and sound block `da`
/// after a status register transfer.
pub open spec fn psr_done(a: Cpu, b: Cpu, da: Aica, db: Aica, opcode: u32) -> bool {
    &&& db == da
    &&& b.same_but_registers(a)
    &&& b.regs() == if condition_holds(a.regs().cpsr, opcode) { psr_registers(a.regs(), opcode) } else { a.regs() }
}

impl Cpu {
    /// A multiply: MUL (Rd = Rm * Rs) or MLA, setting N and Z when asked,
    /// and a refill when Rd is R15.
    pub fn multiply<'b>(&mut self, opcode: u32, bus: &'b mut ArmBus)
        requires
            arm_memory_ok(old(bus).memory()),
            mul_defined(old(self).regs(), opcode),
        ensures
            plain_done(
                *old(self),
                *final(self),
                old(bus).device(),
                final(bus).device(),
                opcode,
                mul_registers(old(self).regs(), opcode),
                rn_of(opcode) == 15,
            ),
    {
        if !self.check_conditions(opcode) {
            return;
        }
        proof { lemma_opcode_fields(opcode); }
        let multiply_opcode = (opcode & 0x1E00000) >> 21u32;
        let set_condition_codes = opcode.check_bit(20);
        let destination_register_index = ((opcode & 0xF0000) >> 16u32) as usize;
        let accumulate_register_index = ((opcode & 0xF000) >> 12u32) as usize;
        let operand_register_index = ((opcode & 0xF00) >> 8u32) as usize;
        let operand_register2_index = (opcode & 0xF) as usize;

        let accumulate_register = self.get_register_by_index(accumulate_register_index);
        let operand_register = self.get_register_by_index(operand_register_index);
        let operand_register2 = self.get_register_by_index(operand_register2_index);
        let mut n = self.registers.cpsr.check_bit(31);
        let mut z = self.registers.cpsr.check_bit(30);
        let c = self.registers.cpsr.check_bit(29);
        let v = self.registers.cpsr.check_bit(28);

        if multiply_opcode == 0 {
            let result = operand_register2.wrapping_mul(operand_register);
            proof { lemma_flag_bits(0, 0, result); }
            z = result == 0;
            n = (result as i32) < 0;
            self.set_register_by_index(destination_register_index, result);
        } else {
            let result = operand_register2.wrapping_mul(operand_register).wrapping_add(accumulate_register);
            proof { lemma_flag_bits(0, 0, result); }
            z = result == 0;
            n = (result as i32) < 0;
            self.set_register_by_index(destination_register_index, result);
        }

        if set_condition_codes {
            self.registers.cpsr = if n { self.registers.cpsr.set_bit(31) } else { self.registers.cpsr.clear_bit(31) };
            self.registers.cpsr = if z { self.registers.cpsr.set_bit(30) } else { self.registers.cpsr.clear_bit(30) };
            self.registers.cpsr = if c { self.registers.cpsr.set_bit(29) } else { self.registers.cpsr.clear_bit(29) };
            self.registers.cpsr = if v { self.registers.cpsr.set_bit(28) } else { self.registers.cpsr.clear_bit(28) };
        }

        if destination_register_index == 15 {
            self.flush_pipeline(bus);
        }
    }

    /// A branch, with the link bit saving the return address in R14.
    pub fn branch_and_branch_with_link<'b>(&mut self, opcode: u32, bus: &'b mut ArmBus)
        requires
            arm_memory_ok(old(bus).memory()),
            branch_defined(old(self).regs(), opcode),
        ensures
            plain_done(
                *old(self),
                *final(self),
                old(bus).device(),
                final(bus).device(),
                opcode,
                branch_registers(old(self).regs(), opcode),
                true,
            ),
    {
        if !self.check_conditions(opcode) {
            return;
        }
        let offset = (((opcode & 0xFFFFFF) << 8u32) as i32) >> 6u32;
        proof { lemma_branch_offset(opcode); }
        let is_branch_with_link = opcode.check_bit(24);
        if is_branch_with_link {
            let ret = self.current_pc_arm() + 4;
            self.set_register_by_index(14, ret);
        }
        self.registers.r15 = self.registers.r15.add_signed_offset(offset);
        self.flush_pipeline(bus);
    }

    /// A software interrupt: supervisor mode at the SWI vector.
    pub fn software_interrupt<'b>(&mut self, opcode: u32, bus: &'b mut ArmBus)
        requires
            arm_memory_ok(old(bus).memory()),
        ensures
            swi_done(*old(self), *final(self), old(bus).device(), final(bus).device()),
    {
        self.registers.spsr_svc = self.registers.cpsr;
        self.registers.r14_svc = self.registers.r15.wrapping_sub(8);
        self.registers.cpsr = self.registers.cpsr.clear_bit(5);
        self.registers.cpsr = self.registers.cpsr.set_bit(7);
        self.set_mode(0x13);
        self.registers.r15 = 0x08;
        proof { assert(refill_address(self.regs()) == 8) by { lemma_arm_constants(); } }
        self.flush_pipeline(bus);
    }

    /// A status register transfer: MRS reads the status register (or the
    /// saved one) into Rd; MSR writes the flag and control fields it names.
    pub fn psr_transfer<'b>(&mut self, opcode: u32, bus: &'b mut ArmBus)
        ensures
            psr_done(*old(self), *final(self), old(bus).device(), final(bus).device(), opcode),
    {
        if !self.check_conditions(opcode) {
            return;
        }
        proof { lemma_opcode_fields(opcode); }
        let immediate = opcode.check_bit(25);
        let targeting_cpsr = !opcode.check_bit(22);
        let is_load = !opcode.check_bit(21);
        let destination_register_index = ((opcode & 0xF000) >> 12u32) as usize;

        let mut operand2: u32 = 0;
        if immediate {
            let shift_amount = ((opcode & 0xF00) >> 8u32) as usize;
            let immediate_value = opcode & 0xFF;
            let mut shift_carry = self.registers.cpsr.check_bit(29);
            operand2 = immediate_value.ror(shift_amount * 2, &mut shift_carry, false);
        } else {
            let source_register_index = (opcode & 0xF) as usize;
            operand2 = self.get_register_by_index(source_register_index);
        }

        if is_load {
            let psr = if targeting_cpsr { self.registers.cpsr } else { self.get_spsr() };
            self.set_register_by_index(destination_register_index, psr);
        } else {
            let update_flags = opcode.check_bit(19);
            let update_control = opcode.check_bit(16);
            let flags_mask: u32 = if update_flags { 0xF0000000 } else { 0x0 };
            let control_mask: u32 = if update_control { 0x0FFFFFFF } else { 0x0 };
            if targeting_cpsr {
                self.registers.cpsr = (self.registers.cpsr & !flags_mask & !control_mask) | (operand2 & (flags_mask
                    | control_mask));
            } else {
                let spsr = self.get_spsr();
                self.set_spsr((spsr & !flags_mask & !control_mask) | (operand2 & (flags_mask | control_mask)));
            }
        }
    }
}

/// A word load at `addr`: the aligned word, rotated right by eight times the
/// low two address bits.
pub open spec fn rotated_word(mem: Seq<u8>, addr: u32) -> u32 {
    if addr & 3 != 0 {
        ror_spec(read_word(mem, addr & !3u32), ((addr & 3) << 3u32) as nat, false, false).0
    } else {
        read_word(mem, addr)
    }
}

/// The unsigned offset of a single data transfer: a 12-bit immediate or a
/// shifted register.
pub open spec fn sdt_raw_offset(regs: CpuRegisters, opcode: u32) -> u32 {
    if bit32(opcode, 25) {
        barrel_shift_spec(
            regs.read(rm_of(opcode)),
            shift_type_of(opcode),
            ((opcode & 0xF80) >> 7u32) as nat,
            bit32(regs.cpsr, 29),
            true,
        ).0
    } else {
        opcode & 0xFFF
    }
}

/// The effective address: the base register plus or minus the offset.
pub open spec fn sdt_effective(regs: CpuRegisters, opcode: u32) -> u32 {
    let off = sdt_raw_offset(regs, opcode);
    if bit32(opcode, 23) { wrap32(regs.read(rn_of(opcode)) + off) } else { wrap32(regs.read(rn_of(opcode)) - off) }
}

/// The address accessed: the effective address when pre-indexed, else the
/// base register.
pub open spec fn sdt_address(regs: CpuRegisters, opcode: u32) -> u32 {
    if bit32(opcode, 24) { sdt_effective(regs, opcode) } else { regs.read(rn_of(opcode)) }
}

/// Whether the effective address is written back to the base register:
/// post-indexed or with the write-back bit, unless a load wrote the base.
pub open spec fn sdt_writes_back(opcode: u32) -> bool {
    (!bit32(opcode, 20) || rn_of(opcode) != rd_of(opcode)) && (!bit32(opcode, 24) || bit32(opcode, 21))
}

/// The registers after the load part of a single data transfer.
pub open spec fn sdt_loaded(regs: CpuRegisters, opcode: u32, mem: Seq<u8>) -> CpuRegisters {
    if bit32(opcode, 20) {
        let addr = sdt_address(regs, opcode);
        let data = if bit32(opcode, 22) { read_byte(mem, addr) as u32 } else { rotated_word(mem, addr) };
        regs.write(rd_of(opcode), data)
    } else {
        regs
    }
}

/// Whether loading R15 refills the pipeline.
pub open spec fn sdt_loads_pc(opcode: u32) -> bool {
    bit32(opcode, 20) && rd_of(opcode) == 15
}

/// The registers after the load part and its refill.
pub open spec fn sdt_middle(regs: CpuRegisters, opcode: u32, mem: Seq<u8>) -> CpuRegisters {
    if sdt_loads_pc(opcode) { refilled_registers(sdt_loaded(regs, opcode, mem)) } else { sdt_loaded(regs, opcode, mem) }
}

/// The registers after the write-back, before its refill.
pub open spec fn sdt_written_back(regs: CpuRegisters, opcode: u32, mem: Seq<u8>) -> CpuRegisters {
    if sdt_writes_back(opcode) {
        sdt_middle(regs, opcode, mem).write(rn_of(opcode), sdt_effective(regs, opcode))
    } else {
        sdt_middle(regs, opcode, mem)
    }
}

/// Whether writing back R15 refills the pipeline.
pub open spec fn sdt_writes_pc(opcode: u32) -> bool {
    sdt_writes_back(opcode) && rn_of(opcode) == 15
}

/// The value a store writes: Rd, or for R15 the instruction's address plus
/// twelve.
pub open spec fn sdt_store_value(regs: CpuRegisters, opcode: u32) -> u32 {
    if rd_of(opcode) == 15 { (regs.r15 - 8 + 12) as u32 } else { regs.read(rd_of(opcode)) }
}

/// The inputs on which a single data transfer runs without a fault.
pub open spec fn sdt_defined(regs: CpuRegisters, opcode: u32, mem: Seq<u8>) -> bool {
    condition_holds(regs.cpsr, opcode) ==> {
        &&& !bit32(opcode, 23) ==> sdt_raw_offset(regs, opcode) != 0x8000_0000
        &&& !bit32(opcode, 20) && rd_of(opcode) == 15 ==> regs.r15 >= 8 && regs.r15 + 4 <= u32::MAX
        &&& !bit32(opcode, 20) && !bit32(opcode, 22) ==> sdt_address(regs, opcode) & !3u32 != 0x20
        &&& sdt_loads_pc(opcode) ==> refill_fits(sdt_loaded(regs, opcode, mem))
        &&& sdt_writes_pc(opcode) ==> refill_fits(sdt_written_back(regs, opcode, mem))
    }
}

/// Whether core `b` and sound block `db` are core `a` and sound block `da`
/// after a single data transfer.
pub open spec fn sdt_done(a: Cpu, b: Cpu, da: Aica, db: Aica, opcode: u32) -> bool {
    &&& !condition_holds(a.regs().cpsr, opcode) ==> b == a && db == da
    &&& condition_holds(a.regs().cpsr, opcode) ==> {
        let regs = a.regs();
        let mem = da.wave_ram@;
        let back = sdt_written_back(regs, opcode, mem);
        &&& bit32(opcode, 20) ==> db == da
        &&& !bit32(opcode, 20) && bit32(opcode, 22) ==> byte_stored(
            da,
            db,
            sdt_address(regs, opcode),
            (sdt_store_value(regs, opcode) & 0xFF) as u8,
        )
        &&& !bit32(opcode, 20) && !bit32(opcode, 22) ==> word_stored(
            da,
            db,
            sdt_address(regs, opcode) & !3u32,
            sdt_store_value(regs, opcode),
        )
        &&& b.ends_transfer(a, back, sdt_loaded(regs, opcode, mem), sdt_loads_pc(opcode), sdt_writes_pc(opcode), mem, db.wave_ram@)
    }
}

proof fn lemma_neg_offset(x: u32)
    ensures
        x != 0x8000_0000 ==> (-(x as i32)) as u32 == 0u32.wrapping_sub(x),
{
    lemma_load_bits(x, 0, 0, 0);
}

/// Facts of fixed values: aligning 0 and 8 to words, bit 15's mask, and the
/// bits of 0x8000 below 15.
proof fn lemma_arm_constants()
    by (bit_vector)
    ensures
        0u32 & !0x03u32 == 0,
        8u32 & !0x03u32 == 8,
        1u32 << 15u32 == 0x8000,
        forall|j: u32| j < 15 ==> (0x8000u32 >> j) & 1 != 1,
{
}

/// Negated offsets, sign extension of bytes and half-words, and half-word
/// alignment.
proof fn lemma_load_bits(x: u32, b: u8, h: u16, addr: u32)
    by (bit_vector)
    ensures
        x != 0x8000_0000 ==> (-(x as i32)) as u32 == 0u32.wrapping_sub(x),
        (b as i8 as i32 as u32) == (if b < 0x80 { b as u32 } else { (b + 0xFFFF_FF00) as u32 }),
        (h as i16 as i32 as u32) == (if h < 0x8000 { h as u32 } else { (h + 0xFFFF_0000) as u32 }),
        addr & 1 == 0 ==> addr & !1u32 == addr,
        (addr & 1) << 3u32 == (if addr & 1 != 0 { 8u32 } else { 0u32 }),
        addr < 0x800000 ==> addr & !1u32 < 0x800000,
{
}

impl Cpu {
    /// A word load at any address: aligned, then rotated by the misalignment.
    pub fn load_and_rotate_32(&mut self, addr: u32, bus: &mut ArmBus) -> (r: u32)
        requires
            arm_memory_ok(old(bus).memory()),
        ensures
            r == rotated_word(old(bus).memory(), addr),
            *final(self) == *old(self),
            final(bus).device() == old(bus).device(),
    {
        if (addr & 0x3) != 0 {
            let rotation = ((addr & 0x3) << 3u32) as usize;
            let value = bus.read_32(addr & !0x3u32);
            let mut carry = false;
            value.ror(rotation, &mut carry, false)
        } else {
            bus.read_32(addr)
        }
    }

    /// A single data transfer (LDR, STR, LDRB, STRB) with an immediate or
    /// shifted-register offset, pre- or post-indexed, with optional write-back.
    pub fn single_data_transfer<'b>(&mut self, opcode: u32, bus: &'b mut ArmBus)
        requires
            arm_memory_ok(old(bus).memory()),
            sdt_defined(old(self).regs(), opcode, old(bus).memory()),
        ensures
            sdt_done(*old(self), *final(self), old(bus).device(), final(bus).device(), opcode),
    {
        if !self.check_conditions(opcode) {
            return;
        }
        proof { lemma_opcode_fields(opcode); }
        let ghost regs0 = self.regs();
        let base_register_index = ((opcode & 0xF0000) >> 16u32) as usize;
        let destination_register_index = ((opcode & 0xF000) >> 12u32) as usize;
        let mut base_register = self.get_register_by_index(base_register_index);

        let shifted = opcode.check_bit(25);
        let load = opcode.check_bit(20);

        let mut offset = opcode & 0xFFF;
        let transferring_byte = opcode.check_bit(22);
        let writeback = opcode.check_bit(21);

        if shifted {
            let mut carry = self.registers.cpsr.check_bit(29);
            let shift_direction = (opcode & 0x60) >> 5u32;
            let shift_amount = (opcode & 0xF80) >> 7u32;
            offset = self.get_register_by_index((opcode & 0xF) as usize);
            let shift_type = match ShiftType::from_u32(shift_direction) {
                Some(t) => t,
                None => ShiftType::Lsl,
            };
            offset = offset.barrel_shift(shift_type, shift_amount as usize, &mut carry, true);
        }
        assert(offset == sdt_raw_offset(regs0, opcode));

        let increment_base_address = opcode.check_bit(23);
        if !increment_base_address {
            proof { lemma_neg_offset(offset); }
            offset = 0u32.wrapping_sub(offset);
        }

        let effective_address = base_register.wrapping_add(offset);
        assert(effective_address == sdt_effective(regs0, opcode));

        let pre_index_base_address = opcode.check_bit(24);
        if pre_index_base_address {
            base_register = effective_address;
        }
        assert(base_register == sdt_address(regs0, opcode));

        if load {
            let data = if transferring_byte {
                bus.read_8(base_register) as u32
            } else {
                self.load_and_rotate_32(base_register, bus)
            };
            self.set_register_by_index(destination_register_index, data);
            if destination_register_index == 15 {
                self.flush_pipeline(bus);
            }
        } else {
            let value = if destination_register_index == 15 {
                self.current_pc_arm() + 12
            } else {
                self.get_register_by_index(destination_register_index)
            };
            if transferring_byte {
                bus.write_8(base_register, (value & 0xFF) as u8);
            } else {
                bus.write_32(base_register & !0x3u32, value);
            }
        }
        assert(self.regs() == sdt_middle(regs0, opcode, old(bus).memory()));

        if (!load || base_register_index != destination_register_index) && (!pre_index_base_address
            || writeback) {
            self.set_register_by_index(base_register_index, effective_address);
            if base_register_index == 15 {
                self.flush_pipeline(bus);
            }
        }
    }
}


/// A half-word load at any address below the sound registers: the aligned
/// half-word, rotated right by eight bits when the address is odd.
pub open spec fn rotated_half(mem: Seq<u8>, addr: u32) -> u32 {
    if addr & 1 != 0 {
        ror_spec(arm_half(mem, addr & !1u32) as u32, 8, false, false).0
    } else {
        arm_half(mem, addr) as u32
    }
}

/// A byte as a two's complement number, widened to a word.
pub open spec fn sign_extend_8(b: u8) -> u32 {
    if b < 0x80 { b as u32 } else { (b + 0xFFFF_FF00) as u32 }
}

/// A half-word as a two's complement number, widened to a word.
pub open spec fn sign_extend_16(h: u16) -> u32 {
    if h < 0x8000 { h as u32 } else { (h + 0xFFFF_0000) as u32 }
}

/// A signed half-word load: at an odd address only the byte there is
/// loaded, sign-extended.
pub open spec fn signed_half(mem: Seq<u8>, addr: u32) -> u32 {
    if addr & 1 != 0 {
        sign_extend_8(read_byte(mem, addr))
    } else {
        sign_extend_16(arm_half(mem, addr & !1u32))
    }
}

proof fn lemma_sign_extend(b: u8, h: u16)
    ensures
        (b as i8 as i32 as u32) == (if b < 0x80 { b as u32 } else { (b + 0xFFFF_FF00) as u32 }),
        (h as i16 as i32 as u32) == (if h < 0x8000 { h as u32 } else { (h + 0xFFFF_0000) as u32 }),
{
    lemma_load_bits(0, b, h, 0);
}

proof fn lemma_half_align(addr: u32)
    ensures
        addr & 1 == 0 ==> addr & !1u32 == addr,
        (addr & 1) << 3u32 == (if addr & 1 != 0 { 8u32 } else { 0u32 }),
        addr < 0x800000 ==> addr & !1u32 < 0x800000,
{
    lemma_load_bits(0, 0, 0, addr);
}

/// The offset a half-word transfer adds to its base register: the offset
/// itself, or its negation when counting down.
pub open spec fn hdt_offset(offset: u32, up: bool) -> u32 {
    if up { offset } else { wrap32(0 - offset) }
}

/// The address a half-word transfer accesses: the base register, plus the
/// offset when pre-indexed.
pub open spec fn hdt_address(regs: CpuRegisters, base: u32, offset: u32, up: bool, pre: bool) -> u32 {
    if pre { wrap32(regs.read(base as int) + hdt_offset(offset, up)) } else { regs.read(base as int) }
}

/// The value a half-word load of kind `load_type` gives: an unsigned
/// half-word (1), a signed byte (2) or a signed half-word (3).
pub open spec fn hdt_load_value(mem: Seq<u8>, addr: u32, load_type: u32) -> u32 {
    if load_type == 1 {
        rotated_half(mem, addr)
    } else if load_type == 2 {
        sign_extend_8(read_byte(mem, addr))
    } else {
        signed_half(mem, addr)
    }
}

/// The registers after the load part of a half-word transfer.
pub open spec fn hdt_loaded(regs: CpuRegisters, mem: Seq<u8>, base: u32, sd: u32, offset: u32, load: bool, up: bool, pre: bool, load_type: u32) -> CpuRegisters {
    if load {
        regs.write(sd as int, hdt_load_value(mem, hdt_address(regs, base, offset, up, pre), load_type))
    } else {
        regs
    }
}

/// The registers after the load part and its refill.
pub open spec fn hdt_middle(regs: CpuRegisters, mem: Seq<u8>, base: u32, sd: u32, offset: u32, load: bool, up: bool, pre: bool, load_type: u32) -> CpuRegisters {
    let loaded = hdt_loaded(regs, mem, base, sd, offset, load, up, pre, load_type);
    if load && sd == 15 { refilled_registers(loaded) } else { loaded }
}

/// Whether the base register is written back: post-indexed or with the
/// write-back bit, unless a load wrote the base.
pub open spec fn hdt_writes_back(base: u32, sd: u32, load: bool, pre: bool, writeback: bool) -> bool {
    (!load || base != sd) && (!pre || writeback)
}

/// The registers after the write-back, before its refill.
pub open spec fn hdt_written_back(regs: CpuRegisters, mem: Seq<u8>, base: u32, sd: u32, offset: u32, load: bool, up: bool, pre: bool, writeback: bool, load_type: u32) -> CpuRegisters {
    let mid = hdt_middle(regs, mem, base, sd, offset, load, up, pre, load_type);
    if hdt_writes_back(base, sd, load, pre, writeback) {
        mid.write(base as int, wrap32(mid.read(base as int) + hdt_offset(offset, up)))
    } else {
        mid
    }
}

/// The value a half-word store writes: Rd, or for R15 the instruction's
/// address plus 0x12.
pub open spec fn hdt_store_value(regs: CpuRegisters, sd: u32) -> u32 {
    if sd == 15 { (regs.r15 - 8 + 0x12) as u32 } else { regs.read(sd as int) }
}

/// The inputs on which a half-word transfer runs without a fault: a known
/// load kind (a store only of kind 1), a negatable offset, reads below the
/// sound registers, and room for each refill.
pub open spec fn hdt_defined(regs: CpuRegisters, mem: Seq<u8>, base: u32, sd: u32, offset: u32, load: bool, up: bool, pre: bool, writeback: bool, load_type: u32) -> bool {
    let addr = hdt_address(regs, base, offset, up, pre);
    &&& base == 15 ==> regs.r15 >= 8
    &&& !up ==> offset != 0x8000_0000
    &&& load ==> 1 <= load_type <= 3
    &&& !load ==> load_type == 1
    &&& load && (load_type == 1 || (load_type == 3 && addr & 1 == 0)) ==> addr < 0x800000
    &&& !load && sd == 15 ==> regs.r15 >= 8 && regs.r15 - 8 + 0x12 <= u32::MAX
    &&& load && sd == 15 ==> refill_fits(hdt_loaded(regs, mem, base, sd, offset, load, up, pre, load_type))
    &&& hdt_writes_back(base, sd, load, pre, writeback) && base == 15 ==> refill_fits(
        hdt_written_back(regs, mem, base, sd, offset, load, up, pre, writeback, load_type),
    )
}

/// Number of registers in list `rlist` below register `i`.
pub open spec fn list_count(rlist: u32, i: nat) -> nat
    decreases i,
{
    if i == 0 {
        0
    } else {
        list_count(rlist, (i - 1) as nat) + if bit32(rlist, (i - 1) as nat) { 1nat } else { 0nat }
    }
}

/// The register list a block transfer works through: bits 0..16, or R15
/// alone when they are all clear.
pub open spec fn bdt_list(opcode: u32) -> u32 {
    if opcode & 0xFFFF != 0 { opcode & 0xFFFF } else { 0x8000 }
}

/// The bytes a block transfer spans: four per listed register, or 64 for
/// an empty list.
pub open spec fn bdt_bytes(opcode: u32) -> nat {
    if opcode & 0xFFFF != 0 { 4 * list_count(opcode & 0xFFFF, 16) } else { 64 }
}

/// Whether the user-mode registers are transferred: the S bit, unless the
/// list as written loads R15.
pub open spec fn bdt_user(opcode: u32) -> bool {
    bit32(opcode, 22) && (!bit32(opcode, 15) || !bit32(opcode, 20))
}

/// The lowest address of the block: the base, or the base less the span
/// when counting down.
pub open spec fn bdt_start(regs: CpuRegisters, opcode: u32) -> u32 {
    let b = regs.read(rn_of(opcode));
    if bit32(opcode, 23) { b } else { wrap32(b - bdt_bytes(opcode)) }
}

/// The base register's new value: the base moved by the span.
pub open spec fn bdt_base_new(regs: CpuRegisters, opcode: u32) -> u32 {
    let b = regs.read(rn_of(opcode));
    if bit32(opcode, 23) { wrap32(b + bdt_bytes(opcode)) } else { wrap32(b - bdt_bytes(opcode)) }
}

/// Whether the address advances before each transfer: pre-indexed counting
/// up, or post-indexed counting down.
pub open spec fn bdt_pre(opcode: u32) -> bool {
    bit32(opcode, 24) == bit32(opcode, 23)
}

/// The address register `j` is transferred at: registers go to ascending
/// addresses in ascending order.
pub open spec fn bdt_addr(regs: CpuRegisters, opcode: u32, j: nat) -> u32 {
    wrap32(bdt_start(regs, opcode) + 4 * list_count(bdt_list(opcode), j) + if bdt_pre(opcode) { 4int } else { 0int })
}

/// The registers when register `j` is stored: with write-back, the base is
/// updated right after the first transfer.
pub open spec fn bdt_before(regs: CpuRegisters, opcode: u32, j: nat) -> CpuRegisters {
    if bit32(opcode, 21) && list_count(bdt_list(opcode), j) > 0 {
        regs.write(rn_of(opcode), bdt_base_new(regs, opcode))
    } else {
        regs
    }
}

/// The registers after a block load has worked through the registers below
/// `i`: with write-back, the base is updated just before the first load.
pub open spec fn ldm_regs(regs: CpuRegisters, opcode: u32, mem: Seq<u8>, i: nat) -> CpuRegisters
    decreases i,
{
    if i == 0 {
        regs
    } else {
        let j = (i - 1) as nat;
        let prev = ldm_regs(regs, opcode, mem, j);
        if bit32(bdt_list(opcode), j) {
            let r1 = if bit32(opcode, 21) && list_count(bdt_list(opcode), j) == 0 {
                prev.write(rn_of(opcode), bdt_base_new(regs, opcode))
            } else {
                prev
            };
            let value = read_word(mem, bdt_addr(regs, opcode, j));
            if bdt_user(opcode) { r1.write_user(j as int, value) } else { r1.write(j as int, value) }
        } else {
            prev
        }
    }
}

/// The registers after a block load, before any refill: loading R15 with
/// the S bit also restores the status register from the saved one.
pub open spec fn ldm_final(regs: CpuRegisters, opcode: u32, mem: Seq<u8>) -> CpuRegisters {
    let r = ldm_regs(regs, opcode, mem, 16);
    if bit32(bdt_list(opcode), 15) && bdt_user(opcode) { CpuRegisters { cpsr: r.spsr(), ..r } } else { r }
}

/// The value a block store writes for register `j`: R15 reads twelve bytes
/// past the instruction.
pub open spec fn stm_value(regs: CpuRegisters, opcode: u32, j: nat) -> u32 {
    let r = bdt_before(regs, opcode, j);
    if j == 15 {
        wrap32(r.r15 + 4)
    } else if bdt_user(opcode) {
        r.read_user(j as int)
    } else {
        r.read(j as int)
    }
}

/// One step of a block store: register `j`, if listed, stored at its
/// address.
pub open spec fn stm_step(regs: CpuRegisters, opcode: u32, j: int, a: Aica, b: Aica) -> bool {
    if bit32(bdt_list(opcode), j as nat) {
        word_stored(a, b, bdt_addr(regs, opcode, j as nat), stm_value(regs, opcode, j as nat))
    } else {
        b == a
    }
}

/// Whether sound block `db` is `da` after the stores of a block store: a
/// chain of sound blocks links them, one step per register.
pub open spec fn stm_stored(regs: CpuRegisters, opcode: u32, da: Aica, db: Aica) -> bool {
    exists|chain: Seq<Aica>|
        #![trigger chain.len()]
        chain.len() == 17 && chain[0] == da && chain[16] == db && forall|j: int|
            0 <= j < 16 ==> #[trigger] stm_step(regs, opcode, j, chain[j], chain[j + 1])
}

/// The inputs on which a block transfer runs without a fault: no store at
/// address 0x20, and room for the refill after loading R15.
pub open spec fn bdt_defined(regs: CpuRegisters, opcode: u32, mem: Seq<u8>) -> bool {
    condition_holds(regs.cpsr, opcode) ==> {
        &&& !bit32(opcode, 20) ==> forall|j: nat|
            j < 16 && bit32(bdt_list(opcode), j) ==> #[trigger] bdt_addr(regs, opcode, j) != 0x20
        &&& bit32(opcode, 20) && bit32(bdt_list(opcode), 15) ==> refill_fits(ldm_final(regs, opcode, mem))
    }
}

/// Whether core `b` and sound block `db` are core `a` and sound block `da`
/// after a block transfer.
pub open spec fn bdt_done(a: Cpu, b: Cpu, da: Aica, db: Aica, opcode: u32) -> bool {
    let regs = a.regs();
    let mem = da.wave_ram@;
    if !condition_holds(regs.cpsr, opcode) {
        b == a && db == da
    } else if bit32(opcode, 20) {
        &&& db == da
        &&& b.ends_with(a, ldm_final(regs, opcode, mem), bit32(bdt_list(opcode), 15), mem)
    } else {
        &&& stm_stored(regs, opcode, da, db)
        &&& b.ends_with(a, bdt_before(regs, opcode, 16), false, db.wave_ram@)
    }
}

proof fn lemma_list_count_bound(rlist: u32, i: nat)
    ensures
        list_count(rlist, i) <= i,
    decreases i,
{
    if i > 0 {
        lemma_list_count_bound(rlist, (i - 1) as nat);
    }
}

proof fn lemma_list_count_mono(rlist: u32, i: nat, j: nat)
    requires
        i <= j,
    ensures
        list_count(rlist, i) <= list_count(rlist, j),
    decreases j,
{
    if i < j {
        lemma_list_count_mono(rlist, i, (j - 1) as nat);
    }
}

proof fn lemma_list_bits(x: u32)
    by (bit_vector)
    ensures
        (x & 0xFFFF) & 0xFFFF == x & 0xFFFF,
        ((x & 0xFFFF) & (1u32 << 15u32) != 0) == ((x >> 15u32) & 1 == 1),
        (0x8000u32 >> 15u32) & 1 == 1,
        x & 0xFFFF != 0 ==> (((x & 0xFFFF) >> 0u32) & 1 == 1 || ((x & 0xFFFF) >> 1u32) & 1 == 1
            || ((x & 0xFFFF) >> 2u32) & 1 == 1 || ((x & 0xFFFF) >> 3u32) & 1 == 1 || ((x & 0xFFFF)
            >> 4u32) & 1 == 1 || ((x & 0xFFFF) >> 5u32) & 1 == 1 || ((x & 0xFFFF) >> 6u32) & 1 == 1
            || ((x & 0xFFFF) >> 7u32) & 1 == 1 || ((x & 0xFFFF) >> 8u32) & 1 == 1 || ((x & 0xFFFF)
            >> 9u32) & 1 == 1 || ((x & 0xFFFF) >> 10u32) & 1 == 1 || ((x & 0xFFFF) >> 11u32) & 1
            == 1 || ((x & 0xFFFF) >> 12u32) & 1 == 1 || ((x & 0xFFFF) >> 13u32) & 1 == 1 || ((x
            & 0xFFFF) >> 14u32) & 1 == 1 || ((x & 0xFFFF) >> 15u32) & 1 == 1),
{
}

/// A non-empty list has a register in it.
proof fn lemma_list_nonempty(rlist: u32, j: nat)
    requires
        j < 16,
        bit32(rlist, j),
    ensures
        list_count(rlist, 16) > 0,
{
    lemma_list_count_mono(rlist, j + 1, 16);
}

/// Below the first listed register nothing is loaded.
proof fn lemma_ldm_prefix(regs: CpuRegisters, opcode: u32, mem: Seq<u8>, i: nat)
    requires
        list_count(bdt_list(opcode), i) == 0,
    ensures
        ldm_regs(regs, opcode, mem, i) == regs,
    decreases i,
{
    if i > 0 {
        lemma_list_count_mono(bdt_list(opcode), (i - 1) as nat, i);
        lemma_ldm_prefix(regs, opcode, mem, (i - 1) as nat);
    }
}

proof fn lemma_wrap_step(x: int, y: int)
    ensures
        wrap32(wrap32(x) + y) == wrap32(x + y),
        0 <= x < 0x1_0000_0000 ==> wrap32(x) == x,
{
    vstd::arithmetic::div_mod::lemma_add_mod_noop(x, y, 0x1_0000_0000);
    vstd::arithmetic::div_mod::lemma_mod_twice(x, 0x1_0000_0000);
    vstd::arithmetic::div_mod::lemma_add_mod_noop(x % 0x1_0000_0000, y, 0x1_0000_0000);
    if 0 <= x < 0x1_0000_0000 {
        vstd::arithmetic::div_mod::lemma_small_mod(x as nat, 0x1_0000_0000);
    }
}

/// The value a swap loads: the byte, or the rotated word, at `addr`.
pub open spec fn swap_loaded(mem: Seq<u8>, addr: u32, byte: bool) -> u32 {
    if byte { read_byte(mem, addr) as u32 } else { rotated_word(mem, addr) }
}

/// The offset of a half-word transfer with a register offset: Rm.
pub open spec fn hdt_reg_offset(regs: CpuRegisters, opcode: u32) -> u32 {
    regs.read(rm_of(opcode))
}

/// The offset of a half-word transfer with an immediate offset: bits 0..4
/// and 8..12.
pub open spec fn hdt_imm_offset(opcode: u32) -> u32 {
    (opcode & 0xF) | ((opcode >> 4u32) & 0xF0)
}

/// The half-word transfer fields of `opcode` with offset `offset` run
/// without a fault.
pub open spec fn hdt_opcode_defined(regs: CpuRegisters, opcode: u32, mem: Seq<u8>, offset: u32) -> bool {
    condition_holds(regs.cpsr, opcode) ==> hdt_defined(
        regs,
        mem,
        rn_of(opcode) as u32,
        rd_of(opcode) as u32,
        offset,
        bit32(opcode, 20),
        bit32(opcode, 23),
        bit32(opcode, 24),
        bit32(opcode, 21),
        (opcode & 0x60) >> 5u32,
    )
}

/// The half-word transfer of `opcode` with offset `offset`: nothing when
/// its condition fails.
pub open spec fn hdt_opcode_done(a: Cpu, b: Cpu, da: Aica, db: Aica, opcode: u32, offset: u32) -> bool {
    &&& !condition_holds(a.regs().cpsr, opcode) ==> b == a && db == da
    &&& condition_holds(a.regs().cpsr, opcode) ==> hdt_done(
        a,
        b,
        da,
        db,
        rn_of(opcode) as u32,
        rd_of(opcode) as u32,
        offset,
        bit32(opcode, 20),
        bit32(opcode, 23),
        bit32(opcode, 24),
        bit32(opcode, 21),
        (opcode & 0x60) >> 5u32,
    )
}

/// A half-word transfer with a register offset runs without a fault.
pub open spec fn hdt_reg_defined(regs: CpuRegisters, opcode: u32, mem: Seq<u8>) -> bool {
    hdt_opcode_defined(regs, opcode, mem, hdt_reg_offset(regs, opcode))
}

/// The effect of a half-word transfer with a register offset.
pub open spec fn hdt_reg_done(a: Cpu, b: Cpu, da: Aica, db: Aica, opcode: u32) -> bool {
    hdt_opcode_done(a, b, da, db, opcode, hdt_reg_offset(a.regs(), opcode))
}

/// A half-word transfer with an immediate offset runs without a fault.
pub open spec fn hdt_imm_defined(regs: CpuRegisters, opcode: u32, mem: Seq<u8>) -> bool {
    hdt_opcode_defined(regs, opcode, mem, hdt_imm_offset(opcode))
}

/// The effect of a half-word transfer with an immediate offset.
pub open spec fn hdt_imm_done(a: Cpu, b: Cpu, da: Aica, db: Aica, opcode: u32) -> bool {
    hdt_opcode_done(a, b, da, db, opcode, hdt_imm_offset(opcode))
}

/// A swap runs without a fault: no word store at address 0x20, and room
/// for the refill after loading R15.
pub open spec fn swap_defined(regs: CpuRegisters, opcode: u32, mem: Seq<u8>) -> bool {
    condition_holds(regs.cpsr, opcode) ==> {
        let addr = regs.read(rn_of(opcode));
        &&& !bit32(opcode, 22) ==> addr & !3u32 != 0x20
        &&& rd_of(opcode) == 15 ==> refill_fits(regs.write(15, swap_loaded(mem, addr, bit32(opcode, 22))))
    }
}

/// Whether core `b` and sound block `db` are core `a` and sound block `da`
/// after a swap.
pub open spec fn swap_done(a: Cpu, b: Cpu, da: Aica, db: Aica, opcode: u32) -> bool {
    &&& !condition_holds(a.regs().cpsr, opcode) ==> b == a && db == da
    &&& condition_holds(a.regs().cpsr, opcode) ==> {
        let regs = a.regs();
        let addr = regs.read(rn_of(opcode));
        let value = regs.read(rm_of(opcode));
        &&& bit32(opcode, 22) ==> byte_stored(da, db, addr, value as u8)
        &&& !bit32(opcode, 22) ==> word_stored(da, db, addr & !3u32, value)
        &&& b.ends_with(a, regs.write(rd_of(opcode), swap_loaded(da.wave_ram@, addr, bit32(opcode, 22))), rd_of(opcode) == 15, db.wave_ram@)
    }
}

/// Whether core `b` and sound block `db` are core `a` and sound block `da`
/// after a half-word transfer with the given fields.
pub open spec fn hdt_done(a: Cpu, b: Cpu, da: Aica, db: Aica, base: u32, sd: u32, offset: u32, load: bool, up: bool, pre: bool, writeback: bool, load_type: u32) -> bool {
    let regs = a.regs();
    let mem = da.wave_ram@;
    let addr = hdt_address(regs, base, offset, up, pre);
    let back = hdt_written_back(regs, mem, base, sd, offset, load, up, pre, writeback, load_type);
    let loaded = hdt_loaded(regs, mem, base, sd, offset, load, up, pre, load_type);
    &&& load ==> db == da
    &&& !load ==> half_stored(da, db, addr & !1u32, hdt_store_value(regs, sd) as u16)
    &&& b.ends_transfer(
        a,
        back,
        loaded,
        load && sd == 15,
        hdt_writes_back(base, sd, load, pre, writeback) && base == 15,
        mem,
        db.wave_ram@,
    )
}

impl Cpu {
    /// Whether `self` is core `old` after a transfer that leaves the
    /// registers `back`, where `loaded` were the registers right after a
    /// load into R15 (refilling from `mem`) and `after` is the memory a
    /// refill for the written-back R15 reads.
    pub open spec fn ends_transfer(self, old: Cpu, back: CpuRegisters, loaded: CpuRegisters, loads_pc: bool, writes_pc: bool, mem: Seq<u8>, after: Seq<u8>) -> bool {
        &&& self.is_running() == old.is_running()
        &&& self.is_tracing() == old.is_tracing()
        &&& self.pending_cycles() == old.pending_cycles()
        &&& if writes_pc {
            &&& self.regs() == refilled_registers(back)
            &&& self.prefetched() == refilled_pipeline(back, after)
            &&& self.was_flushed()
        } else if loads_pc {
            &&& self.regs() == back
            &&& self.prefetched() == refilled_pipeline(loaded, mem)
            &&& self.was_flushed()
        } else {
            &&& self.regs() == back
            &&& self.prefetched() == old.prefetched()
            &&& self.was_flushed() == old.was_flushed()
        }
    }

    /// An unsigned half-word load at any address below the sound registers.
    pub fn load_and_rotate_16(&mut self, addr: u32, bus: &mut ArmBus) -> (r: u32)
        requires
            arm_memory_ok(old(bus).memory()),
            addr < 0x800000,
        ensures
            r == rotated_half(old(bus).memory(), addr),
            *final(self) == *old(self),
            final(bus).device() == old(bus).device(),
    {
        proof { lemma_half_align(addr); }
        if (addr & 0x1) != 0 {
            let rotation = (addr & 0x01) << 3u32;
            let value = bus.read_16(addr & !0x01u32) as u32;
            let mut carry = false;
            value.ror(rotation as usize, &mut carry, false)
        } else {
            bus.read_16(addr) as u32
        }
    }

    /// A signed half-word load; at an odd address, a signed byte load.
    pub fn load_signed_half_word(&mut self, addr: u32, bus: &mut ArmBus) -> (r: u32)
        requires
            arm_memory_ok(old(bus).memory()),
            addr & 1 == 0 ==> addr < 0x800000,
        ensures
            r == signed_half(old(bus).memory(), addr),
            *final(self) == *old(self),
            final(bus).device() == old(bus).device(),
    {
        proof { lemma_half_align(addr); }
        if (addr & 0x1) != 0 {
            let byte_value = bus.read_8(addr);
            proof { lemma_sign_extend(byte_value, 0); }
            byte_value as i8 as i32 as u32
        } else {
            let halfword_value = bus.read_16(addr & !0x1u32);
            proof { lemma_sign_extend(0, halfword_value); }
            halfword_value as i16 as i32 as u32
        }
    }

    /// The load part of a half-word transfer: loads register `sd`, refilling
    /// the pipeline when it is R15.
    fn hdt_load(&mut self, addr: u32, sd: u32, load_type: u32, bus: &mut ArmBus)
        requires
            arm_memory_ok(old(bus).memory()),
            1 <= load_type <= 3,
            load_type == 1 || (load_type == 3 && addr & 1 == 0) ==> addr < 0x800000,
            sd == 15 ==> refill_fits(old(self).regs().write(sd as int, hdt_load_value(old(bus).memory(), addr, load_type))),
        ensures
            final(bus).device() == old(bus).device(),
            final(self).ends_with(
                *old(self),
                old(self).regs().write(sd as int, hdt_load_value(old(bus).memory(), addr, load_type)),
                sd == 15,
                old(bus).memory(),
            ),
    {
        if load_type == 1 {
            let value = self.load_and_rotate_16(addr, bus);
            self.set_register_by_index(sd as usize, value);
        } else if load_type == 2 {
            let single_value = bus.read_8(addr);
            proof { lemma_sign_extend(single_value, 0); }
            let value = single_value as i8 as i32 as u32;
            self.set_register_by_index(sd as usize, value);
        } else {
            let value = self.load_signed_half_word(addr, bus);
            self.set_register_by_index(sd as usize, value);
        }
        if sd == 15 {
            self.flush_pipeline(bus);
        }
    }

    /// The address a half-word transfer accesses, and the signed offset.
    fn hdt_address_exec(&self, base: u32, offset: u32, up: bool, pre: bool) -> (r: (u32, u32))
        requires
            base == 15 ==> self.regs().r15 >= 8,
            !up ==> offset != 0x8000_0000,
        ensures
            r.0 == hdt_address(self.regs(), base, offset, up, pre),
            r.1 == hdt_offset(offset, up),
    {
        let mut off = offset;
        let mut base_register = self.get_register_by_index(base as usize);
        if base == 15 {
            base_register = self.current_pc_arm() + 8;
        }
        if !up {
            proof { lemma_neg_offset(offset); }
            off = 0u32.wrapping_sub(offset);
        }
        let mut effective_address = base_register;
        if pre {
            effective_address = effective_address.wrapping_add(off);
        }
        (effective_address, off)
    }

    /// Adds `off` to register `base`, refilling the pipeline when it is R15.
    fn hdt_write_back(&mut self, base: u32, off: u32, bus: &ArmBus)
        requires
            arm_memory_ok(bus.memory()),
            base == 15 ==> refill_fits(old(self).regs().write(base as int, wrap32(old(self).regs().read(base as int) + off))),
        ensures
            final(self).ends_with(
                *old(self),
                old(self).regs().write(base as int, wrap32(old(self).regs().read(base as int) + off)),
                base == 15,
                bus.memory(),
            ),
    {
        let new_value = self.get_register_by_index(base as usize).wrapping_add(off);
        self.set_register_by_index(base as usize, new_value);
        if base == 15 {
            self.flush_pipeline(bus);
        }
    }

    /// The common part of the half-word and signed transfers (LDRH, STRH,
    /// LDRSB, LDRSH): address arithmetic, the transfer, and the write-back.
    #[verifier::rlimit(40)]
    #[verifier::spinoff_prover]
    pub fn data_transfer_common(
        &mut self,
        opcode: u32,
        base_register_index: u32,
        source_dest_register_index: u32,
        offset: u32,
        load: bool,
        increment_base_address: bool,
        pre_index_base_address: bool,
        writeback: bool,
        load_type: u32,
        bus: &mut ArmBus,
    )
        requires
            arm_memory_ok(old(bus).memory()),
            hdt_defined(old(self).regs(), old(bus).memory(), base_register_index, source_dest_register_index, offset, load, increment_base_address, pre_index_base_address, writeback, load_type),
        ensures
            hdt_done(
                *old(self),
                *final(self),
                old(bus).device(),
                final(bus).device(),
                base_register_index,
                source_dest_register_index,
                offset,
                load,
                increment_base_address,
                pre_index_base_address,
                writeback,
                load_type,
            ),
    {
        let ghost old_self = *self;
        let ghost regs0 = self.regs();
        let ghost mem0 = bus.memory();
        let (effective_address, off) = self.hdt_address_exec(
            base_register_index,
            offset,
            increment_base_address,
            pre_index_base_address,
        );
        if load {
            self.hdt_load(effective_address, source_dest_register_index, load_type, bus);
        } else {
            let value = if source_dest_register_index == 15 {
                self.current_pc_arm() + 0x12
            } else {
                self.get_register_by_index(source_dest_register_index as usize)
            };
            bus.write_16(effective_address & !0x1u32, value as u16);
        }
        let ghost mid_self = *self;
        if (!load || base_register_index != source_dest_register_index) && (!pre_index_base_address
            || writeback) {
            self.hdt_write_back(base_register_index, off, bus);
        }
    }


    /// A half-word transfer with its offset in register Rm.
    pub fn data_transfer_register<'b>(&mut self, opcode: u32, bus: &'b mut ArmBus)
        requires
            arm_memory_ok(old(bus).memory()),
            hdt_reg_defined(old(self).regs(), opcode, old(bus).memory()),
        ensures
            hdt_reg_done(*old(self), *final(self), old(bus).device(), final(bus).device(), opcode),
    {
        if !self.check_conditions(opcode) {
            return;
        }
        proof { lemma_opcode_fields(opcode); }
        let pre_index_base_address = opcode.check_bit(24);
        let increment_base_address = opcode.check_bit(23);
        let writeback = opcode.check_bit(21);
        let load = opcode.check_bit(20);
        let base_register_index = (opcode & 0xF0000) >> 16u32;
        let source_dest_register_index = (opcode & 0xF000) >> 12u32;
        let offset_register_index = opcode & 0xF;
        let offset_register = self.get_register_by_index(offset_register_index as usize);
        let load_type = (opcode & 0x60) >> 5u32;
        self.data_transfer_common(
            opcode,
            base_register_index,
            source_dest_register_index,
            offset_register,
            load,
            increment_base_address,
            pre_index_base_address,
            writeback,
            load_type,
            bus,
        );
    }

    /// A half-word transfer with an eight-bit immediate offset, split over
    /// bits 0..4 and 8..12.
    pub fn data_transfer_immediate<'b>(&mut self, opcode: u32, bus: &'b mut ArmBus)
        requires
            arm_memory_ok(old(bus).memory()),
            hdt_imm_defined(old(self).regs(), opcode, old(bus).memory()),
        ensures
            hdt_imm_done(*old(self), *final(self), old(bus).device(), final(bus).device(), opcode),
    {
        if !self.check_conditions(opcode) {
            return;
        }
        proof { lemma_opcode_fields(opcode); }
        let pre_index_base_address = opcode.check_bit(24);
        let increment_base_address = opcode.check_bit(23);
        let writeback = opcode.check_bit(21);
        let load = opcode.check_bit(20);
        let base_register_index = (opcode & 0xF0000) >> 16u32;
        let source_dest_register_index = (opcode & 0xF000) >> 12u32;
        let offset = (opcode & 0xF) | ((opcode >> 4u32) & 0xF0);
        let load_type = (opcode & 0x60) >> 5u32;
        self.data_transfer_common(
            opcode,
            base_register_index,
            source_dest_register_index,
            offset,
            load,
            increment_base_address,
            pre_index_base_address,
            writeback,
            load_type,
            bus,
        );
    }

    /// A swap (SWP, SWPB): loads Rd from the address in Rn and stores Rm
    /// there, both reads before the write.
    pub fn single_data_swap<'b>(&mut self, opcode: u32, bus: &'b mut ArmBus)
        requires
            arm_memory_ok(old(bus).memory()),
            swap_defined(old(self).regs(), opcode, old(bus).memory()),
        ensures
            swap_done(*old(self), *final(self), old(bus).device(), final(bus).device(), opcode),
    {
        if !self.check_conditions(opcode) {
            return;
        }
        proof { lemma_opcode_fields(opcode); }
        let base_register_index = (opcode >> 16u32) & 0b1111;
        let source_register_index = opcode & 0b1111;
        let destination_register_index = (opcode >> 12u32) & 0b1111;
        let is_byte_sized = opcode.check_bit(22);
        let base_register = self.get_register_by_index(base_register_index as usize);
        if is_byte_sized {
            let t = bus.read_8(base_register);
            let source = self.get_register_by_index(source_register_index as usize);
            bus.write_8(base_register, source as u8);
            self.set_register_by_index(destination_register_index as usize, t as u32);
        } else {
            let t = self.load_and_rotate_32(base_register, bus);
            let source = self.get_register_by_index(source_register_index as usize);
            bus.write_32(base_register & !0x3u32, source);
            self.set_register_by_index(destination_register_index as usize, t);
        }
        if destination_register_index == 15 {
            self.flush_pipeline(bus);
        }
    }

    /// The register list, its first register and the bytes it spans.
    fn bdt_prepare(opcode: u32) -> (r: (u32, usize, u32))
        ensures
            r.0 == bdt_list(opcode),
            r.1 < 16,
            bit32(r.0, r.1 as nat),
            list_count(r.0, r.1 as nat) == 0,
            r.2 == bdt_bytes(opcode),
            r.2 <= 64,
    {
        proof { lemma_list_bits(opcode); }
        let mut rlist = opcode & 0xFFFF;
        let mut first: usize = 0;
        let mut bytes: u32 = 0;
        if rlist != 0 {
            proof {
                let ghost l = opcode & 0xFFFF;
                assert(exists|j: nat| j < 16 && #[trigger] bit32(l, j)) by {
                    if bit32(l, 0) {} else if bit32(l, 1) {} else if bit32(l, 2) {} else if bit32(l, 3) {}
                    else if bit32(l, 4) {} else if bit32(l, 5) {} else if bit32(l, 6) {} else if bit32(l, 7) {}
                    else if bit32(l, 8) {} else if bit32(l, 9) {} else if bit32(l, 10) {} else if bit32(l, 11) {}
                    else if bit32(l, 12) {} else if bit32(l, 13) {} else if bit32(l, 14) {} else {
                        assert(bit32(l, 15));
                    }
                }
                let j = choose|j: nat| j < 16 && #[trigger] bit32(l, j);
                lemma_list_nonempty(l, j);
                lemma_list_count_bound(l, 16);
            }
            let mut k: usize = 16;
            while k > 0
                invariant
                    k <= 16,
                    rlist == opcode & 0xFFFF,
                    list_count(rlist, 16) > 0,
                    list_count(rlist, 16) <= 16,
                    bytes == 4 * (list_count(rlist, 16) - list_count(rlist, k as nat)),
                    bytes > 0 ==> first < 16 && k <= first && bit32(rlist, first as nat) && list_count(
                        rlist,
                        first as nat,
                    ) == list_count(rlist, k as nat),
                decreases k,
            {
                proof {
                    lemma_list_count_mono(rlist, k as nat, 16);
                    lemma_list_count_mono(rlist, (k - 1) as nat, k as nat);
                }
                k -= 1;
                if rlist.check_bit(k) {
                    first = k;
                    bytes += 4;
                }
            }
            proof {
                lemma_list_count_mono(rlist, 0, 16);
            }
        } else {
            rlist = 1u32 << 15u32;
            first = 15;
            bytes = 64;
            proof {
                lemma_arm_constants();
                assert(list_count(0x8000, 15) == 0) by {
                    assert forall|j: nat| j < 15 implies !#[trigger] bit32(0x8000, j) by {
                        lemma_arm_constants();
                    }
                    reveal_with_fuel(list_count, 16);
                }
            }
        }
        (rlist, first, bytes)
    }

    /// A block transfer (LDM, STM): the listed registers to or from
    /// consecutive words, ascending, counting up or down from the base, with
    /// optional write-back and the S bit's user-register or status restore.
    #[verifier::rlimit(60)]
    #[verifier::spinoff_prover]
    pub fn block_data_transfer<'b>(&mut self, opcode: u32, bus: &'b mut ArmBus)
        requires
            arm_memory_ok(old(bus).memory()),
            bdt_defined(old(self).regs(), opcode, old(bus).memory()),
        ensures
            bdt_done(*old(self), *final(self), old(bus).device(), final(bus).device(), opcode),
    {
        if !self.check_conditions(opcode) {
            return;
        }
        proof { lemma_opcode_fields(opcode); lemma_list_bits(opcode); }
        let ghost regs0 = self.regs();
        let ghost old_self = *self;
        let ghost dev0 = *bus.aica;
        let ghost mem0 = bus.memory();
        let mut pre = opcode.check_bit(24);
        let add = opcode.check_bit(23);
        let writeback = opcode.check_bit(21);
        let load = opcode.check_bit(20);
        let base_register_index = ((opcode & 0xF0000) >> 16u32) as usize;
        let transferring_pc_written = ((opcode & 0xFFFF) & (1u32 << 15u32)) != 0;
        let user_mode = opcode.check_bit(22) && (!transferring_pc_written || !load);
        let mut address = self.get_register_by_index(base_register_index);
        let (rlist, first, bytes) = Self::bdt_prepare(opcode);
        let transferring_pc = rlist.check_bit(15);
        let mut base_new = address;
        if !add {
            pre = !pre;
            address = address.wrapping_sub(bytes);
            base_new = base_new.wrapping_sub(bytes);
        } else {
            base_new = base_new.wrapping_add(bytes);
        }
        assert(address == bdt_start(regs0, opcode));
        assert(base_new == bdt_base_new(regs0, opcode));
        assert(pre == bdt_pre(opcode));
        assert(user_mode == bdt_user(opcode));
        let ghost mut chain: Seq<Aica> = Seq::new((first + 1) as nat, |j: int| dev0);
        proof {
            lemma_ldm_prefix(regs0, opcode, mem0, first as nat);
            lemma_wrap_step(address as int, 0);
            assert forall|j: int| 0 <= j < first implies !#[trigger] bit32(rlist, j as nat) by {
                lemma_list_count_mono(rlist, (j + 1) as nat, first as nat);
            }
        }
        let mut i: usize = first;
        while i < 16
            invariant
                first <= i <= 16,
                first < 16,
                bit32(rlist, first as nat),
                list_count(rlist, first as nat) == 0,
                rlist == bdt_list(opcode),
                regs0 == old_self.regs(),
                condition_holds(regs0.cpsr, opcode),
                bdt_defined(regs0, opcode, mem0),
                mem0 == dev0.wave_ram@,
                base_register_index == rn_of(opcode),
                base_new == bdt_base_new(regs0, opcode),
                pre == bdt_pre(opcode),
                user_mode == bdt_user(opcode),
                load == bit32(opcode, 20),
                writeback == bit32(opcode, 21),
                arm_memory_ok(bus.memory()),
                self.same_but_registers(old_self),
                address == wrap32(bdt_start(regs0, opcode) + 4 * list_count(rlist, i as nat)),
                load ==> self.regs() == ldm_regs(regs0, opcode, mem0, i as nat) && *bus.aica == dev0,
                !load ==> {
                    &&& self.regs() == bdt_before(regs0, opcode, i as nat)
                    &&& chain.len() == i + 1
                    &&& chain[0] == dev0
                    &&& chain[i as int] == *bus.aica
                    &&& forall|j: int| 0 <= j < i ==> #[trigger] stm_step(regs0, opcode, j, chain[j], chain[j + 1])
                },
            decreases 16 - i,
        {
            proof {
                lemma_list_count_mono(rlist, first as nat, i as nat);
                if i > first {
                    lemma_list_count_mono(rlist, (first + 1) as nat, i as nat);
                }
            }
            let ghost dev_i = *bus.aica;
            let ghost regs_i = self.regs();
            if rlist.check_bit(i) {
                let ghost at = bdt_addr(regs0, opcode, i as nat);
                if pre {
                    proof { lemma_wrap_step(bdt_start(regs0, opcode) + 4 * list_count(rlist, i as nat), 4); }
                    address = address.wrapping_add(4);
                } else {
                    proof { lemma_wrap_step(bdt_start(regs0, opcode) + 4 * list_count(rlist, i as nat), 0); }
                }
                assert(address == at);
                if load {
                    let value = bus.read_32(address);
                    if writeback && i == first {
                        self.set_register_by_index(base_register_index, base_new);
                    }
                    if !user_mode {
                        self.set_register_by_index(i, value);
                    } else {
                        self.set_user_register_by_index(i, value);
                    }
                } else {
                    let value = if i == 15 {
                        self.registers.r15.wrapping_add(4)
                    } else {
                        if !user_mode {
                            self.get_register_by_index(i)
                        } else {
                            self.get_user_register_by_index(i)
                        }
                    };
                    assert(value == stm_value(regs0, opcode, i as nat));
                    bus.write_32(address, value);
                    if writeback && i == first {
                        self.set_register_by_index(base_register_index, base_new);
                    }
                    proof {
                        chain = chain.push(*bus.aica);
                        assert(stm_step(regs0, opcode, i as int, chain[i as int], chain[i + 1]));
                    }
                }
                if !pre {
                    proof { lemma_wrap_step(bdt_start(regs0, opcode) + 4 * list_count(rlist, i as nat), 4); }
                    address = address.wrapping_add(4);
                } else {
                    proof { lemma_wrap_step(bdt_start(regs0, opcode) + 4 * list_count(rlist, i as nat) + 4, 0); }
                }
            } else {
                proof {
                    if !load {
                        chain = chain.push(*bus.aica);
                        assert(stm_step(regs0, opcode, i as int, chain[i as int], chain[i + 1]));
                    }
                }
            }
            i += 1;
        }
        if load && transferring_pc {
            if user_mode {
                let spsr = self.get_spsr();
                self.registers.cpsr = spsr;
            }
            self.flush_pipeline(bus);
        }
        proof {
            if !load {
                assert(stm_stored(regs0, opcode, dev0, *bus.aica));
            }
        }
    }
}

/// The instruction classes the core decodes.
#[derive(Copy, Clone, PartialEq, Eq, Structural, Debug)]
pub enum ArmInstruction {
    BranchAndBranchWithLink,
    SoftwareInterrupt,
    BlockDataTransfer,
    SingleDataSwap,
    Multiply,
    SingleDataTransfer,
    DataTransferRegister,
    DataTransferImmediate,
    PsrTransfer,
    DataProcessing,
}

/// The class of `opcode`, tried in order from branches to data processing.
pub open spec fn decoded(opcode: u32) -> Option<ArmInstruction> {
    if opcode & 0x0F00_0000 == 0x0A00_0000 || opcode & 0x0F00_0000 == 0x0B00_0000 {
        Some(ArmInstruction::BranchAndBranchWithLink)
    } else if opcode & 0x0F00_0000 == 0x0F00_0000 {
        Some(ArmInstruction::SoftwareInterrupt)
    } else if opcode & 0x0E00_0000 == 0x0800_0000 {
        Some(ArmInstruction::BlockDataTransfer)
    } else if opcode & 0xFB00FF0 == 0x1000090 {
        Some(ArmInstruction::SingleDataSwap)
    } else if opcode & 0x0F80_00F0 == 0x0000_0090 {
        Some(ArmInstruction::Multiply)
    } else if opcode & 0x0C00_0000 == 0x0400_0000 {
        Some(ArmInstruction::SingleDataTransfer)
    } else if opcode & 0x0E40_0F90 == 0x0000_0090 {
        Some(ArmInstruction::DataTransferRegister)
    } else if opcode & 0x0E40_0090 == 0x0040_0090 {
        Some(ArmInstruction::DataTransferImmediate)
    } else if opcode & 0x0DB0_F000 == 0x0120_F000 || opcode & 0x0FBF_0000 == 0x010F_0000 {
        Some(ArmInstruction::PsrTransfer)
    } else if opcode & 0x0C00_0000 == 0 {
        Some(ArmInstruction::DataProcessing)
    } else {
        None
    }
}

/// The inputs on which an instruction of class `kind` runs without a fault.
pub open spec fn instruction_defined(kind: ArmInstruction, regs: CpuRegisters, opcode: u32, mem: Seq<u8>) -> bool {
    match kind {
        ArmInstruction::BranchAndBranchWithLink => branch_defined(regs, opcode),
        ArmInstruction::SoftwareInterrupt => true,
        ArmInstruction::BlockDataTransfer => bdt_defined(regs, opcode, mem),
        ArmInstruction::SingleDataSwap => swap_defined(regs, opcode, mem),
        ArmInstruction::Multiply => mul_defined(regs, opcode),
        ArmInstruction::SingleDataTransfer => sdt_defined(regs, opcode, mem),
        ArmInstruction::DataTransferRegister => hdt_reg_defined(regs, opcode, mem),
        ArmInstruction::DataTransferImmediate => hdt_imm_defined(regs, opcode, mem),
        ArmInstruction::PsrTransfer => true,
        ArmInstruction::DataProcessing => dp_defined(regs, opcode),
    }
}

/// Whether core `b` and sound block `db` are core `a` and sound block `da`
/// after an instruction of class `kind`.
pub open spec fn instruction_done(kind: ArmInstruction, a: Cpu, b: Cpu, da: Aica, db: Aica, opcode: u32) -> bool {
    match kind {
        ArmInstruction::BranchAndBranchWithLink => plain_done(a, b, da, db, opcode, branch_registers(a.regs(), opcode), true),
        ArmInstruction::SoftwareInterrupt => swi_done(a, b, da, db),
        ArmInstruction::BlockDataTransfer => bdt_done(a, b, da, db, opcode),
        ArmInstruction::SingleDataSwap => swap_done(a, b, da, db, opcode),
        ArmInstruction::Multiply => plain_done(a, b, da, db, opcode, mul_registers(a.regs(), opcode), rn_of(opcode) == 15),
        ArmInstruction::SingleDataTransfer => sdt_done(a, b, da, db, opcode),
        ArmInstruction::DataTransferRegister => hdt_reg_done(a, b, da, db, opcode),
        ArmInstruction::DataTransferImmediate => hdt_imm_done(a, b, da, db, opcode),
        ArmInstruction::PsrTransfer => psr_done(a, b, da, db, opcode),
        ArmInstruction::DataProcessing => plain_done(a, b, da, db, opcode, dp_registers(a.regs(), opcode), dp_refills(opcode)),
    }
}

/// What a fetched instruction does: it runs when the core runs and
/// decodes it; otherwise nothing happens.
pub open spec fn executes(f: Cpu, e: Cpu, df: Aica, de: Aica, opcode: u32) -> bool {
    if f.is_running() && decoded(opcode) is Some {
        instruction_done(decoded(opcode)->0, f, e, df, de, opcode)
    } else {
        e == f && de == df
    }
}

impl Cpu {
    /// Whether `self` is core `a` after the fetch that starts an
    /// instruction: eight cycles spent, and the pipeline moved on by the word
    /// at R15.
    pub open spec fn fetched_from(self, a: Cpu, mem: Seq<u8>) -> bool {
        &&& self.regs() == a.regs()
        &&& self.is_running() == a.is_running()
        &&& self.is_tracing() == a.is_tracing()
        &&& self.was_flushed() == a.was_flushed()
        &&& self.pending_cycles() == 0
        &&& self.prefetched() == seq![a.prefetched()[1], arm_word(mem, a.regs().r15)]
    }

    /// Whether `self` is core `e` after its instruction retires: R15 moves
    /// on a word unless the pipeline was refilled.
    pub open spec fn retired_from(self, e: Cpu) -> bool {
        &&& self.regs() == if e.was_flushed() {
            e.regs()
        } else {
            CpuRegisters { r15: (e.regs().r15 + 4) as u32, ..e.regs() }
        }
        &&& self.prefetched() == e.prefetched()
        &&& !self.was_flushed()
        &&& self.is_running() == e.is_running()
        &&& self.is_tracing() == e.is_tracing()
        &&& self.pending_cycles() == e.pending_cycles()
    }
}

/// The inputs on which a clock step runs without a fault: the cycle count
/// below eight; and when this step completes eight cycles, the instruction
/// at the head of the pipeline defined, and room to move R15 on after it.
pub open spec fn step_defined(a: Cpu, da: Aica) -> bool {
    let mem = da.wave_ram@;
    let opcode = a.prefetched()[0];
    &&& a.pending_cycles() < 8
    &&& a.pending_cycles() == 7 ==> {
        &&& a.is_running() && decoded(opcode) is Some ==> instruction_defined(decoded(opcode)->0, a.regs(), opcode, mem)
        &&& forall|f: Cpu, e: Cpu, de: Aica|
            #[trigger] executes(f, e, da, de, opcode) && f.fetched_from(a, mem) && !e.was_flushed()
                ==> e.regs().r15 + 4 <= u32::MAX
    }
}

/// Whether core `c` and sound block `dc` are core `a` and sound block `da`
/// after one clock step: a cycle is counted, and every eighth runs the
/// instruction at the head of the pipeline.
pub open spec fn stepped(a: Cpu, c: Cpu, da: Aica, dc: Aica) -> bool {
    if a.pending_cycles() < 7 {
        &&& dc == da
        &&& c.regs() == a.regs()
        &&& c.prefetched() == a.prefetched()
        &&& c.was_flushed() == a.was_flushed()
        &&& c.is_running() == a.is_running()
        &&& c.is_tracing() == a.is_tracing()
        &&& c.pending_cycles() == a.pending_cycles() + 1
    } else {
        exists|f: Cpu, e: Cpu|
            #![trigger f.fetched_from(a, da.wave_ram@), c.retired_from(e)]
            f.fetched_from(a, da.wave_ram@) && executes(f, e, da, dc, a.prefetched()[0]) && c.retired_from(e)
    }
}

impl Cpu {
    /// The class of `opcode`.
    fn decode_arm(&self, opcode: u32) -> (r: Option<ArmInstruction>)
        ensures
            r == decoded(opcode),
    {
        if Self::is_branch_and_branch_with_link(opcode) {
            Some(ArmInstruction::BranchAndBranchWithLink)
        } else if Self::is_software_interrupt(opcode) {
            Some(ArmInstruction::SoftwareInterrupt)
        } else if Self::is_block_data_transfer(opcode) {
            Some(ArmInstruction::BlockDataTransfer)
        } else if Self::is_single_data_swap(opcode) {
            Some(ArmInstruction::SingleDataSwap)
        } else if Self::is_multiply(opcode) {
            Some(ArmInstruction::Multiply)
        } else if Self::is_single_data_transfer(opcode) {
            Some(ArmInstruction::SingleDataTransfer)
        } else if Self::is_halfword_data_transfer_register(opcode) {
            Some(ArmInstruction::DataTransferRegister)
        } else if Self::is_halfword_data_transfer_immediate(opcode) {
            Some(ArmInstruction::DataTransferImmediate)
        } else if Self::is_psr_transfer_msr(opcode) {
            Some(ArmInstruction::PsrTransfer)
        } else if Self::is_psr_transfer_mrs(opcode) {
            Some(ArmInstruction::PsrTransfer)
        } else if Self::is_data_processing(opcode) {
            Some(ArmInstruction::DataProcessing)
        } else {
            None
        }
    }

    /// Runs `opcode` as an instruction of class `kind`.
    fn execute(&mut self, kind: ArmInstruction, opcode: u32, bus: &mut ArmBus)
        requires
            arm_memory_ok(old(bus).memory()),
            instruction_defined(kind, old(self).regs(), opcode, old(bus).memory()),
        ensures
            instruction_done(kind, *old(self), *final(self), old(bus).device(), final(bus).device(), opcode),
    {
        match kind {
            ArmInstruction::BranchAndBranchWithLink => self.branch_and_branch_with_link(opcode, bus),
            ArmInstruction::SoftwareInterrupt => self.software_interrupt(opcode, bus),
            ArmInstruction::BlockDataTransfer => self.block_data_transfer(opcode, bus),
            ArmInstruction::SingleDataSwap => self.single_data_swap(opcode, bus),
            ArmInstruction::Multiply => self.multiply(opcode, bus),
            ArmInstruction::SingleDataTransfer => self.single_data_transfer(opcode, bus),
            ArmInstruction::DataTransferRegister => self.data_transfer_register(opcode, bus),
            ArmInstruction::DataTransferImmediate => self.data_transfer_immediate(opcode, bus),
            ArmInstruction::PsrTransfer => self.psr_transfer(opcode, bus),
            ArmInstruction::DataProcessing => self.data_processing(opcode, bus),
        }
    }

    /// One clock step: counts a cycle, and on every eighth fetches the next
    /// word, runs the instruction at the head of the pipeline (when the core
    /// runs and decodes it) and moves R15 on unless it was refilled.
    pub fn step<'b>(&mut self, bus: &mut ArmBus<'b>)
        requires
            arm_memory_ok(old(bus).memory()),
            step_defined(*old(self), old(bus).device()),
        ensures
            stepped(*old(self), *final(self), old(bus).device(), final(bus).device()),
            final(self).pending_cycles() < 8,
    {
        let ghost a = *self;
        let ghost da = *bus.aica;
        let ghost mem = bus.memory();
        let ghost opcode = self.pipeline[0];
        self.cyc += 1;
        let ghost mut f = *self;
        let ghost mut e = *self;
        while self.cyc >= 8
            invariant
                self.cyc <= 8,
                a.cyc < 8,
                step_defined(a, da),
                mem == da.wave_ram@,
                opcode == a.pipeline[0],
                self.cyc == 8 ==> a.cyc == 7 && *self == (Cpu { cyc: 8, ..a }) && *bus.aica == da && arm_memory_ok(bus.memory()),
                self.cyc < 8 && a.cyc < 7 ==> *self == (Cpu { cyc: (a.cyc + 1) as u64, ..a }) && *bus.aica == da,
                self.cyc < 8 && a.cyc == 7 ==> {
                    &&& f.fetched_from(a, mem)
                    &&& executes(f, e, da, *bus.aica, opcode)
                    &&& self.retired_from(e)
                },
            decreases self.cyc,
        {
            self.cyc -= 8;
            let instruction = self.pipeline[0];
            self.pipeline[0] = self.pipeline[1];
            self.pipeline[1] = bus.fetch_32(self.registers.r15);
            proof {
                f = *self;
                assert(f.prefetched() =~= seq![a.prefetched()[1], arm_word(mem, a.regs().r15)]);
            }
            match self.decode_arm(instruction) {
                Some(kind) => {
                    if self.running {
                        self.execute(kind, instruction, bus);
                    }
                },
                None => {},
            }
            proof {
                e = *self;
                assert(executes(f, e, da, *bus.aica, opcode));
            }
            if !self.flushed {
                self.registers.r15 += 4;
            }
            self.flushed = false;
        }
        proof {
            if a.cyc == 7 {
                assert(f.fetched_from(a, mem) && self.retired_from(e));
            }
        }
    }
}

/// Reading a register gives back what was last written to it, and writing
/// one register leaves every other one as the current mode sees it; the
/// same holds of the user-mode registers.
pub proof fn law_register_write_read(regs: CpuRegisters, i: int, j: int, v: u32)
    requires
        0 <= i < 16,
        0 <= j < 16,
    ensures
        regs.write(i, v).read(i) == v,
        j != i ==> regs.write(i, v).read(j) == regs.read(j),
        regs.write(i, v).mode() == regs.mode(),
        regs.write_user(i, v).read_user(i) == v,
        j != i ==> regs.write_user(i, v).read_user(j) == regs.read_user(j),
{
}

/// The logical data-processing operations, bit by bit: AND, EOR and ORR
/// combine the operands' bits; BIC keeps the first operand's bits that the
/// second lacks; MOV writes the second operand and MVN its complement. TST
/// and TEQ write nothing.
pub proof fn law_dp_logic_bitwise(a: u32, b: u32, carry: bool, cpsr: u32, i: u32)
    requires
        i < 32,
    ensures
        dp_alu(0x0, a, b, carry, cpsr).0 matches Some(r) && bit_of(r, i) == (bit_of(a, i) && bit_of(b, i)),
        dp_alu(0x1, a, b, carry, cpsr).0 matches Some(r) && bit_of(r, i) == (bit_of(a, i) != bit_of(b, i)),
        dp_alu(0xC, a, b, carry, cpsr).0 matches Some(r) && bit_of(r, i) == (bit_of(a, i) || bit_of(b, i)),
        dp_alu(0xD, a, b, carry, cpsr).0 == Some(b),
        dp_alu(0xE, a, b, carry, cpsr).0 matches Some(r) && bit_of(r, i) == (bit_of(a, i) && !bit_of(b, i)),
        dp_alu(0xF, a, b, carry, cpsr).0 matches Some(r) && bit_of(r, i) == !bit_of(b, i),
        dp_alu(0x8, a, b, carry, cpsr).0 is None && dp_alu(0x9, a, b, carry, cpsr).0 is None,
{
    lemma_logic_bits(a, b, i);
}

/// The arithmetic data-processing operations, over whole numbers: ADD and
/// ADC give the sum (with the carry in, for ADC) less 2^32 when C reports a
/// carry out; SUB and RSB give the difference plus 2^32 when C reports a
/// borrow (C clear); CMN, CMP report the same C as ADD, SUB and write
/// nothing.
pub proof fn law_dp_arith_exact(a: u32, b: u32, carry: bool, cpsr: u32)
    ensures
        ({
            let (r, _, _, c, _) = dp_alu(0x4, a, b, carry, cpsr);
            r matches Some(x) && x + (if c { 0x1_0000_0000int } else { 0 }) == a + b
        }),
        ({
            let (r, _, _, c, _) = dp_alu(0x5, a, b, carry, cpsr);
            r matches Some(x) && x + (if c { 0x1_0000_0000int } else { 0 }) == a + b + (if carry { 1int } else { 0 })
        }),
        ({
            let (r, _, _, c, _) = dp_alu(0x2, a, b, carry, cpsr);
            r matches Some(x) && x - (if c { 0int } else { 0x1_0000_0000 }) == a - b
        }),
        ({
            let (r, _, _, c, _) = dp_alu(0x3, a, b, carry, cpsr);
            r matches Some(x) && x - (if c { 0int } else { 0x1_0000_0000 }) == b - a
        }),
        dp_alu(0xA, a, b, carry, cpsr).0 is None && dp_alu(0xA, a, b, carry, cpsr).3 == dp_alu(0x2, a, b, carry, cpsr).3,
        dp_alu(0xB, a, b, carry, cpsr).0 is None && dp_alu(0xB, a, b, carry, cpsr).3 == dp_alu(0x4, a, b, carry, cpsr).3,
{
}

proof fn lemma_flags_keep_mode(c: u32, n: bool, z: bool, cc: bool, v: bool)
    by (bit_vector)
    ensures
        with_flags(c, n, z, cc, v) & 0x1f == c & 0x1f,
{
}

/// MUL writes Rm * Rs to Rd, and MLA writes Rm * Rs + Rn, modulo 2^32
/// (the fields as the multiply encodes them: Rd in bits 16..20, Rn in
/// 12..16); every other register keeps its value.
pub proof fn law_multiply_result(regs: CpuRegisters, opcode: u32, j: int)
    requires
        0 <= j < 16,
        j != rn_of(opcode),
    ensures
        mul_registers(regs, opcode).read(rn_of(opcode)) == (regs.read(rm_of(opcode)) * regs.read(rs_of(opcode)) + (
            if dp_op(opcode) == 1 { regs.read(rd_of(opcode)) as int } else { 0 })) % 0x1_0000_0000,
        mul_registers(regs, opcode).read(j) == regs.read(j),
{
    lemma_opcode_fields(opcode);
    let rd = rn_of(opcode);
    let a = regs.read(rm_of(opcode)) * regs.read(rs_of(opcode));
    let acc: int = if dp_op(opcode) == 1 { regs.read(rd_of(opcode)) as int } else { 0 };
    assert(0 <= a) by (nonlinear_arith)
        requires
            a == regs.read(rm_of(opcode)) * regs.read(rs_of(opcode)),
    ;
    vstd::arithmetic::div_mod::lemma_add_mod_noop(a, acc, 0x1_0000_0000);
    vstd::arithmetic::div_mod::lemma_mod_twice(a, 0x1_0000_0000);
    let result = if dp_op(opcode) == 1 { wrap32(wrap32(a) + acc) } else { wrap32(a) };
    let r1 = regs.write(rd, result);
    law_register_write_read(regs, rd, j, result);
    lemma_flags_keep_mode(r1.cpsr, msb(result), result == 0, bit32(regs.cpsr, 29), bit32(regs.cpsr, 28));
}

} // verus!
