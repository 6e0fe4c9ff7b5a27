//! The on-chip DMA controller's registers.
use super::bus::PhysicalAddress;
use vstd::prelude::*;

verus! {

#[derive(Copy, Clone, Debug, Eq, PartialEq, Structural)]
pub struct DmacRegisters {
    pub sar0: u32,
    pub dar0: u32,
    pub dmatcr0: u32,
    pub chcr0: u32,
    pub sar1: u32,
    pub dar1: u32,
    pub dmatcr1: u32,
    pub chcr1: u32,
    pub sar2: u32,
    pub dar2: u32,
    pub dmatcr2: u32,
    pub chcr2: u32,
    pub sar3: u32,
    pub dar3: u32,
    pub dmatcr3: u32,
    pub chcr3: u32,
    pub dmaor: u32,
}

#[derive(Copy, Clone, Debug)]
pub struct Dmac {
    pub registers: DmacRegisters,
}

/// The register file after a 32-bit write of `value` to `addr`; a write to
/// an unknown address changes nothing.
pub open spec fn dmac_write32_spec(r: DmacRegisters, addr: u32, value: u32) -> DmacRegisters {
    match addr {
        0x1fa00000 => DmacRegisters { sar0: value, ..r },
        0x1fa00004 => DmacRegisters { dar0: value, ..r },
        0x1fa00008 => DmacRegisters { dmatcr0: value, ..r },
        0x1fa0000c => DmacRegisters { chcr0: value, ..r },
        0x1fa00010 => DmacRegisters { sar1: value, ..r },
        0x1fa00014 => DmacRegisters { dar1: value, ..r },
        0x1fa00018 => DmacRegisters { dmatcr1: value, ..r },
        0x1fa0001c => DmacRegisters { chcr1: value, ..r },
        0x1fa00020 => DmacRegisters { sar2: value, ..r },
        0x1fa00024 => DmacRegisters { dar2: value, ..r },
        0x1fa00028 => DmacRegisters { dmatcr2: value, ..r },
        0x1fa0002c => DmacRegisters { chcr2: value, ..r },
        0x1fa00030 => DmacRegisters { sar3: value, ..r },
        0x1fa00034 => DmacRegisters { dar3: value, ..r },
        0x1fa00038 => DmacRegisters { dmatcr3: value, ..r },
        0x1fa0003c => DmacRegisters { chcr3: value, ..r },
        0x1fa00040 => DmacRegisters { dmaor: value, ..r },
        _ => r,
    }
}

impl Dmac {
    pub fn new() -> (r: Self)
        ensures
            r.registers == (DmacRegisters {
                sar0: 0,
                dar0: 0,
                dmatcr0: 0,
                chcr0: 0,
                sar1: 0,
                dar1: 0,
                dmatcr1: 0,
                chcr1: 0,
                sar2: 0,
                dar2: 0,
                dmatcr2: 0,
                chcr2: 0,
                sar3: 0,
                dar3: 0,
                dmatcr3: 0,
                chcr3: 0,
                dmaor: 0,
            }),
    {
        Self {
            registers: DmacRegisters {
                sar0: 0,
                dar0: 0,
                dmatcr0: 0,
                chcr0: 0,
                sar1: 0,
                dar1: 0,
                dmatcr1: 0,
                chcr1: 0,
                sar2: 0,
                dar2: 0,
                dmatcr2: 0,
                chcr2: 0,
                sar3: 0,
                dar3: 0,
                dmatcr3: 0,
                chcr3: 0,
                dmaor: 0,
            },
        }
    }

    pub fn write_32(&mut self, addr: PhysicalAddress, value: u32)
        ensures
            final(self).registers == dmac_write32_spec(old(self).registers, addr.0, value),
    {
        match addr.0 {
            0x1fa00000 => self.registers.sar0 = value,
            0x1fa00004 => self.registers.dar0 = value,
            0x1fa00008 => self.registers.dmatcr0 = value,
            0x1fa0000c => self.registers.chcr0 = value,
            0x1fa00010 => self.registers.sar1 = value,
            0x1fa00014 => self.registers.dar1 = value,
            0x1fa00018 => self.registers.dmatcr1 = value,
            0x1fa0001c => self.registers.chcr1 = value,
            0x1fa00020 => self.registers.sar2 = value,
            0x1fa00024 => self.registers.dar2 = value,
            0x1fa00028 => self.registers.dmatcr2 = value,
            0x1fa0002c => self.registers.chcr2 = value,
            0x1fa00030 => self.registers.sar3 = value,
            0x1fa00034 => self.registers.dar3 = value,
            0x1fa00038 => self.registers.dmatcr3 = value,
            0x1fa0003c => self.registers.chcr3 = value,
            0x1fa00040 => self.registers.dmaor = value,
            _ => {},
        }
    }

    /// Reads a channel control register (channels 1, 2 and 3).
    pub fn read_32(&self, addr: PhysicalAddress) -> (r: u32)
        requires
            addr.0 == 0x1FA0002C || addr.0 == 0x1fa0001c || addr.0 == 0x1fa0003c,
        ensures
            addr.0 == 0x1FA0002C ==> r == self.registers.chcr2,
            addr.0 == 0x1fa0001c ==> r == self.registers.chcr1,
            addr.0 == 0x1fa0003c ==> r == self.registers.chcr3,
    {
        match addr.0 {
            0x1FA0002C => self.registers.chcr2,
            0x1fa0001c => self.registers.chcr1,
            _ => self.registers.chcr3,
        }
    }
}

} // verus!
