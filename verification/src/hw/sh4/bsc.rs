//! The bus state controller.
use super::bus::PhysicalAddress;
use vstd::prelude::*;

verus! {

/// Size of each synchronous DRAM mode register area.
pub const SDMR_SIZE: usize = 65535;

#[derive(Clone, Debug, Eq, PartialEq)]
pub struct BscRegisters {
    pub bcr1: u32,
    pub bcr2: u16,
    pub rfcr: u16,
    pub rtcor: u16,
    pub rtcsr: u16,
    pub pdtra: u16,
    pub pdtrb: u16,
    pub pctra: u32,
    pub pctrb: u32,
    pub mcr: u32,
    pub pcr: u16,
    pub gpioic: u16,
    pub wcr1: u32,
    pub wcr2: u32,
    pub wcr3: u32,
    pub sdmr2: Vec<u8>,
    pub sdmr3: Vec<u8>,
}

pub struct Bsc {
    pub registers: BscRegisters,
}

/// The 32-bit registers that the controller accepts writes to.
pub open spec fn bsc_write32_known(addr: u32) -> bool {
    addr == 0x1f800000 || addr == 0x1f800008 || addr == 0x1f800010 || addr == 0x1f800014 || addr
        == 0x1f80002c || addr == 0x1f800040 || addr == 0x1f80000c
}

/// The 16-bit registers that the controller accepts writes to.
pub open spec fn bsc_write16_known(addr: u32) -> bool {
    addr == 0x1f800004 || addr == 0x1f800018 || addr == 0x1f80001c || addr == 0x1f800024 || addr
        == 0x1f800028 || addr == 0x1f800030 || addr == 0x1f800044 || addr == 0x1f800048
}

/// The port A data value read back: 3 when port A is configured as 0x8,
/// 0xB (unless the data low bits are 2) or 0xC with data low bits 2, else 0;
/// the cable type (VGA, 0) sits in bits 8 and up.
pub open spec fn pdtra_read_spec(pctra: u32, pdtra: u16) -> u16 {
    let c = pctra & 0xf;
    let d = pdtra & 0xf;
    if c == 0x8 {
        3
    } else if c == 0xB {
        if d == 2 {
            0
        } else {
            3
        }
    } else if c == 0xC && d == 2 {
        3
    } else {
        0
    }
}

/// The registers after a 32-bit write of `value` to the known register `addr`.
pub open spec fn bsc_write32_spec(r: BscRegisters, addr: u32, value: u32) -> BscRegisters {
    match addr {
        0x1f800000 => BscRegisters { bcr1: value, ..r },
        0x1f800008 => BscRegisters { wcr1: value, ..r },
        0x1f800010 => BscRegisters { wcr3: value, ..r },
        0x1f800014 => BscRegisters { mcr: value, ..r },
        0x1f80002c => BscRegisters { pctra: value & 0xffff, ..r },
        0x1f800040 => BscRegisters { pctrb: value, ..r },
        _ => BscRegisters { wcr2: value, ..r },
    }
}

/// The registers after a 16-bit write of `value` to the known register `addr`.
pub open spec fn bsc_write16_spec(r: BscRegisters, addr: u32, value: u16) -> BscRegisters {
    match addr {
        0x1f800004 => BscRegisters { bcr2: value, ..r },
        0x1f800018 => BscRegisters { pcr: value, ..r },
        0x1f80001c => BscRegisters { rtcsr: value, ..r },
        0x1f800024 => BscRegisters { rtcor: value, ..r },
        0x1f800028 => BscRegisters { rfcr: value, ..r },
        0x1f800030 => BscRegisters { pdtra: value, ..r },
        0x1f800044 => BscRegisters { pdtrb: value, ..r },
        _ => BscRegisters { gpioic: value, ..r },
    }
}

impl Bsc {
    pub open spec fn wf(&self) -> bool {
        self.registers.sdmr2@.len() == SDMR_SIZE && self.registers.sdmr3@.len() == SDMR_SIZE
    }

    pub fn new() -> (r: Self)
        ensures
            r.wf(),
            r.registers.bcr1 == 0 && r.registers.bcr2 == 0 && r.registers.rfcr == 0
                && r.registers.rtcor == 0 && r.registers.rtcsr == 0 && r.registers.pdtra == 0
                && r.registers.pdtrb == 0 && r.registers.pctra == 0 && r.registers.pctrb == 0
                && r.registers.mcr == 0 && r.registers.pcr == 0 && r.registers.gpioic == 0
                && r.registers.wcr1 == 0 && r.registers.wcr2 == 0 && r.registers.wcr3 == 0,
            forall|i: int| 0 <= i < SDMR_SIZE ==> r.registers.sdmr2@[i] == 0 && r.registers.sdmr3@[i] == 0,
    {
        Self {
            registers: BscRegisters {
                bcr1: 0,
                bcr2: 0,
                rfcr: 0,
                rtcor: 0,
                rtcsr: 0,
                pdtra: 0,
                pdtrb: 0,
                pctra: 0,
                pctrb: 0,
                mcr: 0,
                pcr: 0,
                gpioic: 0,
                wcr1: 0,
                wcr2: 0,
                wcr3: 0,
                sdmr2: vec![0; SDMR_SIZE],
                sdmr3: vec![0; SDMR_SIZE],
            },
        }
    }

    pub fn write_32(&mut self, addr: PhysicalAddress, value: u32)
        requires
            bsc_write32_known(addr.0),
        ensures
            final(self).registers == bsc_write32_spec(old(self).registers, addr.0, value),
    {
        match addr.0 {
            0x1f800000 => self.registers.bcr1 = value,
            0x1f800008 => self.registers.wcr1 = value,
            0x1f800010 => self.registers.wcr3 = value,
            0x1f800014 => self.registers.mcr = value,
            0x1f80002c => {
                self.registers.pctra = value & 0xffff;
            },
            0x1f800040 => self.registers.pctrb = value,
            _ => self.registers.wcr2 = value,
        }
    }

    /// Writes a byte of the SDRAM mode register area 3.
    pub fn write_8(&mut self, addr: PhysicalAddress, value: u8)
        requires
            old(self).wf(),
            0x1f940000 <= addr.0 < 0x1f940000 + SDMR_SIZE,
        ensures
            final(self).wf(),
            final(self).registers == (BscRegisters {
                sdmr3: final(self).registers.sdmr3,
                ..old(self).registers
            }),
            final(self).registers.sdmr3@ == old(self).registers.sdmr3@.update(
                addr.0 - 0x1f940000,
                value,
            ),
    {
        let idx = (addr.0 - 0x1f940000) as usize;
        self.registers.sdmr3.set(idx, value);
    }

    pub fn write_16(&mut self, addr: PhysicalAddress, value: u16)
        requires
            bsc_write16_known(addr.0),
        ensures
            final(self).registers == bsc_write16_spec(old(self).registers, addr.0, value),
    {
        match addr.0 {
            0x1f800004 => self.registers.bcr2 = value,
            0x1f800018 => self.registers.pcr = value,
            0x1f80001c => self.registers.rtcsr = value,
            0x1f800024 => self.registers.rtcor = value,
            0x1f800028 => self.registers.rfcr = value,
            0x1f800030 => self.registers.pdtra = value,
            0x1f800044 => self.registers.pdtrb = value,
            _ => self.registers.gpioic = value,
        }
    }

    pub fn read_16(&self, addr: PhysicalAddress) -> (r: u16)
        requires
            addr.0 == 0x1f800028 || addr.0 == 0x1f800030,
        ensures
            addr.0 == 0x1f800028 ==> r == self.registers.rfcr,
            addr.0 == 0x1f800030 ==> r == pdtra_read_spec(self.registers.pctra, self.registers.pdtra),
    {
        match addr.0 {
            0x1f800028 => self.registers.rfcr,
            _ => {
                let tpctra = self.registers.pctra;
                let tpdtra = self.registers.pdtra;
                let mut tfinal: u16;
                if (tpctra & 0xf) == 0x8 {
                    tfinal = 3;
                } else if (tpctra & 0xf) == 0xB {
                    tfinal = 3;
                } else {
                    tfinal = 0;
                }
                if (tpctra & 0xf) == 0xB && (tpdtra & 0xf) == 2 {
                    tfinal = 0;
                } else if (tpctra & 0xf) == 0xC && (tpdtra & 0xf) == 2 {
                    tfinal = 3;
                }
                let cable_type: u16 = 0;
                proof {
                    assert(tfinal | (cable_type << 8u16) == tfinal) by (bit_vector)
                        requires
                            cable_type == 0u16,
                    ;
                }
                tfinal = tfinal | (cable_type << 8u16);
                tfinal
            },
        }
    }

    pub fn read_32(&self, addr: PhysicalAddress) -> (r: u32)
        requires
            addr.0 == 0x1f80002c,
        ensures
            r == self.registers.pctra,
    {
        self.registers.pctra
    }
}

} // verus!
