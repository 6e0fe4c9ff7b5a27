//! The cache and TLB controller, with the operand cache used as RAM.
use super::bus::PhysicalAddress;
use crate::hw::extensions::{bit32, le_word, lemma_write_le32_read, write_le16, write_le32, BitManipulation};
use vstd::prelude::*;

verus! {

/// Size of the operand cache RAM in bytes.
pub const OPERAND_CACHE_SIZE: usize = 8192;

#[derive(Copy, Clone, Debug, Eq, PartialEq, Structural)]
pub struct CcnRegisters {
    pub pteh: u32,
    pub ptel: u32,
    pub ttb: u32,
    pub tea: u32,
    pub mmucr: u32,
    pub basra: u8,
    pub basrb: u8,
    pub ccr: u32,
    pub tra: u32,
    pub expevt: u32,
    pub intevt: u32,
    pub ptea: u32,
    pub qacr0: u32,
    pub qacr1: u32,
}

pub struct Ccn {
    pub registers: CcnRegisters,
    pub operand_cache_ram: Vec<u8>,
}

/// The registers that accept 32-bit writes.
pub open spec fn ccn_write32_known(addr: u32) -> bool {
    addr == 0x1f000000 || addr == 0x1f000004 || addr == 0x1f000008 || addr == 0x1f00000c || addr
        == 0x1f000010 || addr == 0x1f00001c || addr == 0x1f000020 || addr == 0x1f000024 || addr
        == 0x1f000028 || addr == 0x1f000034 || addr == 0x1f000038 || addr == 0x1f00003c
}

/// The registers that answer 32-bit reads.
pub open spec fn ccn_read32_known(addr: u32) -> bool {
    addr == 0x1f000024 || addr == 0x1f00001c || addr == 0x1f000028 || addr == 0x1f000030 || addr
        == 0x1f000010
}

/// The registers after a 32-bit write of `value` to the known register `addr`.
pub open spec fn ccn_write32_spec(r: CcnRegisters, addr: u32, value: u32) -> CcnRegisters {
    match addr {
        0x1f000000 => CcnRegisters { pteh: value, ..r },
        0x1f000004 => CcnRegisters { ptel: value, ..r },
        0x1f000008 => CcnRegisters { ttb: value, ..r },
        0x1f00000c => CcnRegisters { tea: value, ..r },
        0x1f000010 => CcnRegisters { mmucr: value, ..r },
        0x1f00001c => CcnRegisters { ccr: value, ..r },
        0x1f000020 => CcnRegisters { tra: value, ..r },
        0x1f000024 => CcnRegisters { expevt: value & 0xFFFF, ..r },
        0x1f000028 => CcnRegisters { intevt: value & 0xFFFF, ..r },
        0x1f000034 => CcnRegisters { ptea: value & 0xF, ..r },
        0x1f000038 => CcnRegisters { qacr0: value, ..r },
        _ => CcnRegisters { qacr1: value, ..r },
    }
}

/// What a 32-bit read of the known register `addr` answers: CCR without its
/// write-only bits 11 and 3, a fixed product code at 0x1f000030.
pub open spec fn ccn_read32_spec(r: CcnRegisters, addr: u32) -> u32 {
    if addr == 0x1f000024 {
        r.expevt
    } else if addr == 0x1f00001c {
        r.ccr & !(1u32 << 11u32) & !(1u32 << 3u32)
    } else if addr == 0x1f000028 {
        r.intevt
    } else if addr == 0x1f000030 {
        0x040205c1
    } else {
        r.mmucr
    }
}

/// The byte of the operand cache RAM that `addr` selects: with CCR.OIX
/// (bit 7) clear, address bit 13 picks the half; with it set, bit 25 does.
pub open spec fn oc_index(ccr: u32, addr: u32) -> int {
    if !bit32(ccr, 7) {
        (((addr & 0x2000) >> 1u32) | (addr & 0xfff)) as int
    } else {
        (((addr & 0x02000000) >> 13u32) | (addr & 0xfff)) as int
    }
}

proof fn lemma_oc_index_bound(addr: u32)
    by (bit_vector)
    ensures
        ((addr & 0x2000) >> 1u32) | (addr & 0xfff) < 0x2000,
        ((addr & 0x02000000) >> 13u32) | (addr & 0xfff) < 0x2000,
{
}

impl Ccn {
    /// The operand cache RAM.
    pub open spec fn ram(&self) -> Seq<u8> {
        self.operand_cache_ram@
    }

    pub open spec fn wf(&self) -> bool {
        self.ram().len() == OPERAND_CACHE_SIZE
    }

    pub fn new() -> (r: Self)
        ensures
            r.wf(),
            forall|i: int| 0 <= i < OPERAND_CACHE_SIZE ==> r.ram()[i] == 0,
            r.registers == (CcnRegisters {
                pteh: 0,
                ptel: 0,
                ttb: 0,
                tea: 0,
                mmucr: 0,
                basra: 0,
                basrb: 0,
                ccr: 0,
                tra: 0,
                expevt: 0,
                intevt: 0,
                ptea: 0,
                qacr0: 0,
                qacr1: 0,
            }),
    {
        Self {
            operand_cache_ram: vec![0; OPERAND_CACHE_SIZE],
            registers: CcnRegisters {
                pteh: 0,
                ptel: 0,
                ttb: 0,
                tea: 0,
                mmucr: 0,
                basra: 0,
                basrb: 0,
                ccr: 0,
                tra: 0,
                expevt: 0,
                intevt: 0,
                ptea: 0,
                qacr0: 0,
                qacr1: 0,
            },
        }
    }

    pub fn write_32(&mut self, addr: PhysicalAddress, value: u32)
        requires
            ccn_write32_known(addr.0),
        ensures
            final(self).ram() == old(self).ram(),
            final(self).registers == ccn_write32_spec(old(self).registers, addr.0, value),
    {
        match addr.0 {
            0x1f000000 => self.registers.pteh = value,
            0x1f000004 => self.registers.ptel = value,
            0x1f000008 => self.registers.ttb = value,
            0x1f00000c => self.registers.tea = value,
            0x1f000010 => self.registers.mmucr = value,
            0x1f00001c => self.registers.ccr = value,
            0x1f000020 => self.registers.tra = value,
            0x1f000024 => self.registers.expevt = value & 0xFFFF,
            0x1f000028 => self.registers.intevt = value & 0xFFFF,
            0x1f000034 => self.registers.ptea = value & 0x0000000F,
            0x1f000038 => self.registers.qacr0 = value,
            _ => self.registers.qacr1 = value,
        }
    }

    pub fn oc_index_of(&self, addr: PhysicalAddress) -> (r: usize)
        ensures
            r == oc_index(self.registers.ccr, addr.0),
            r < OPERAND_CACHE_SIZE,
    {
        proof {
            lemma_oc_index_bound(addr.0);
        }
        if !self.registers.ccr.check_bit(7) {
            (((addr.0 & 0x2000) >> 1u32) | (addr.0 & 0xfff)) as usize
        } else {
            (((addr.0 & 0x02000000) >> 13u32) | (addr.0 & 0xfff)) as usize
        }
    }

    /// Stores `value` little-endian at the cache byte that `addr` selects.
    pub fn write_oc_32(&mut self, addr: PhysicalAddress, value: u32)
        requires
            old(self).wf(),
            oc_index(old(self).registers.ccr, addr.0) + 4 <= OPERAND_CACHE_SIZE,
        ensures
            final(self).wf(),
            final(self).registers == old(self).registers,
            final(self).ram() == write_le32(old(self).ram(), oc_index(old(self).registers.ccr, addr.0), value),
    {
        let index = self.oc_index_of(addr);
        self.operand_cache_ram.set(index, (value & 0xff) as u8);
        self.operand_cache_ram.set(index + 1, ((value >> 8u32) & 0xff) as u8);
        self.operand_cache_ram.set(index + 2, ((value >> 16u32) & 0xff) as u8);
        self.operand_cache_ram.set(index + 3, ((value >> 24u32) & 0xff) as u8);
    }

    pub fn write_oc_16(&mut self, addr: PhysicalAddress, value: u16)
        requires
            old(self).wf(),
            oc_index(old(self).registers.ccr, addr.0) + 2 <= OPERAND_CACHE_SIZE,
        ensures
            final(self).wf(),
            final(self).registers == old(self).registers,
            final(self).ram() == write_le16(old(self).ram(), oc_index(old(self).registers.ccr, addr.0), value),
    {
        let index = self.oc_index_of(addr);
        self.operand_cache_ram.set(index, (value & 0xff) as u8);
        self.operand_cache_ram.set(index + 1, ((value >> 8u16) & 0xff) as u8);
    }

    pub fn write_oc_8(&mut self, addr: PhysicalAddress, value: u8)
        requires
            old(self).wf(),
        ensures
            final(self).wf(),
            final(self).registers == old(self).registers,
            final(self).ram() == old(self).ram().update(oc_index(old(self).registers.ccr, addr.0), value),
    {
        let index = self.oc_index_of(addr);
        self.operand_cache_ram.set(index, value);
    }

    /// The little-endian word at the cache byte that `addr` selects.
    pub fn read_oc_32(&self, addr: PhysicalAddress) -> (r: u32)
        requires
            self.wf(),
            oc_index(self.registers.ccr, addr.0) + 4 <= OPERAND_CACHE_SIZE,
        ensures
            r == le_word(self.ram(), oc_index(self.registers.ccr, addr.0)),
    {
        let index = self.oc_index_of(addr);
        (self.operand_cache_ram[index] as u32) | ((self.operand_cache_ram[index + 1] as u32) << 8)
            | ((self.operand_cache_ram[index + 2] as u32) << 16) | ((self.operand_cache_ram[index
            + 3] as u32) << 24)
    }

    pub fn read_oc_8(&self, addr: PhysicalAddress) -> (r: u8)
        requires
            self.wf(),
        ensures
            r == self.ram()[oc_index(self.registers.ccr, addr.0)],
    {
        let index = self.oc_index_of(addr);
        self.operand_cache_ram[index]
    }

    pub fn read_32(&self, addr: PhysicalAddress) -> (r: u32)
        requires
            ccn_read32_known(addr.0),
        ensures
            r == ccn_read32_spec(self.registers, addr.0),
    {
        match addr.0 {
            0x1f000024 => self.registers.expevt,
            0x1f00001c => self.registers.ccr.clear_bit(11).clear_bit(3),
            0x1f000028 => self.registers.intevt,
            0x1f000030 => 0x040205c1,
            _ => self.registers.mmucr,
        }
    }
}

/// A 32-bit write to the operand cache RAM is read back unchanged, at the
/// address written and at every address that selects the same cache bytes,
/// as long as CCR stays as it was.
pub proof fn law_oc_write_read(c: Ccn, a: PhysicalAddress, v: u32, b: PhysicalAddress)
    requires
        c.wf(),
        oc_index(c.registers.ccr, a.0) + 4 <= OPERAND_CACHE_SIZE,
        oc_index(c.registers.ccr, b.0) == oc_index(c.registers.ccr, a.0),
    ensures
        le_word(write_le32(c.ram(), oc_index(c.registers.ccr, a.0), v), oc_index(c.registers.ccr, b.0)) == v,
{
    lemma_oc_index_bound(a.0);
    lemma_write_le32_read(c.ram(), oc_index(c.registers.ccr, a.0), v);
}

} // verus!
