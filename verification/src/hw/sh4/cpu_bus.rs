//! The SH-4 side of the memory bus: the address map, system RAM and its
//! mirror, AICA wave RAM, the operand cache, the store queues, the registers
//! of the cache controller, the bus state controller, the DMA controller and
//! the timer unit, and a few on-chip latches.
//!
//! Accesses that land on Holly's side of the bus (its registers, video RAM,
//! the tile accelerator, the boot ROM), on the interrupt controller's, the
//! real-time clock's or the clock generator's registers, or on an address
//! that the map or a peripheral refuses, are not carried out here: the read
//! answers `None`, the write changes nothing and answers `false`.
use super::bus::{
    translate_spec, LogicalAddress, MappedLocation, MappedRange, MemoryMapper, PhysicalAddress,
};
use super::ccn::{
    ccn_read32_known, ccn_read32_spec, ccn_write32_known, ccn_write32_spec, oc_index, Ccn,
    CcnRegisters, OPERAND_CACHE_SIZE,
};
use super::bsc::{bsc_write16_known, bsc_write16_spec, bsc_write32_known, bsc_write32_spec, pdtra_read_spec, Bsc, BscRegisters};
use super::dmac::{dmac_write32_spec, Dmac, DmacRegisters};
use super::intc::Intc;
use super::tmu::{tmu_write16_spec, tmu_write32_known, tmu_write32_spec, tmu_write8_spec, Tmu, TmuRegisters};
use crate::hw::extensions::{le_half, le_word, lemma_write_le16_read, lemma_write_le32_read, write_le16, write_le32};
use vstd::prelude::*;

verus! {

/// Size of system RAM in bytes (16 MiB).
pub const SYSTEM_RAM_SIZE: usize = 0x100_0000;

/// Size of AICA wave RAM in bytes (2 MiB).
pub const AICA_RAM_SIZE: usize = 0x20_0000;

/// What the bus holds, as plain values.
pub struct BusView {
    pub ram: Seq<u8>,
    pub aica: Seq<u8>,
    /// The operand cache RAM.
    pub oc: Seq<u8>,
    pub ccn: CcnRegisters,
    pub bsc: BscRegisters,
    pub tmu: TmuRegisters,
    pub dmac: DmacRegisters,
    pub armsdt: u32,
    /// The two store queues of eight long words, one after the other.
    pub sq: Seq<u32>,
    pub basra: u8,
    pub basrb: u8,
    pub bara: u32,
    pub barb: u32,
    pub unk_val: u32,
    pub unk_val1: u32,
}

/// A window of the address map.
pub open spec fn window(start: u32, size: usize, location: MappedLocation) -> MappedRange {
    MappedRange { start: LogicalAddress(start), size, location }
}

/// The SH-4 address map: P0 mirrored four times, the operand cache RAM
/// area, P1, P2 and P3 onto the external space, P4 onto the on-chip
/// registers, and the store queue area, tried in this order.
pub open spec fn sh4_ranges() -> Seq<MappedRange> {
    let ext = MappedLocation::ExternalAddress(PhysicalAddress(0));
    seq![
        window(0, 0x1bffffff, ext),
        window(0x20000000, 0x1bffffff, ext),
        window(0x40000000, 0x1bffffff, ext),
        window(0x60000000, 0x1bffffff, ext),
        window(0x7c000000, 0x3ffffff, MappedLocation::OperandCache(PhysicalAddress(0))),
        window(0x80000000, 0x1bffffff, ext),
        window(0xa0000000, 0x1bffffff, ext),
        window(0xc0000000, 0x1bffffff, ext),
        window(0xfc000000, 0x3ffffff, MappedLocation::InternalAddress(PhysicalAddress(0x1c000000))),
        window(0xe0000000, 0x3ffffff, MappedLocation::StoreQueue(PhysicalAddress(0xe0000000))),
    ]
}

/// Where a logical address lands.
pub open spec fn location(addr: u32) -> MappedLocation {
    translate_spec(sh4_ranges(), LogicalAddress(addr))
}

/// The store queue entry that a store-queue address selects: bit 5 picks the
/// queue, bits 2..5 the long word.
pub open spec fn sq_slot(addr: u32) -> int {
    let a = addr & 0x1FFFFFFF;
    (((a >> 5u32) & 1) * 8 + ((a & 0x1c) >> 2u32)) as int
}

/// A byte read, or `None` where it is not carried out here.
#[verifier::opaque]
pub open spec fn read8(b: BusView, addr: u32) -> Option<u8> {
    match location(addr) {
        MappedLocation::ExternalAddress(p) => {
            if 0x00800000 <= p.0 <= 0x009fffff {
                Some(b.aica[p.0 - 0x00800000])
            } else if 0x00600000 <= p.0 <= 0x006fffff {
                Some(0)
            } else if 0x0c000000 <= p.0 <= 0x0cffffff {
                Some(b.ram[p.0 - 0x0c000000])
            } else if 0x0d000000 <= p.0 <= 0x0dffffff {
                Some(b.ram[p.0 - 0x0d000000])
            } else {
                None
            }
        },
        MappedLocation::InternalAddress(p) => {
            if p.0 == 0x1FE80004 || p.0 == 0x1fc0000c {
                Some(0)
            } else if p.0 == 0x1fd80004 {
                Some(b.tmu.tstr)
            } else {
                None
            }
        },
        MappedLocation::OperandCache(p) => Some(b.oc[oc_index(b.ccn.ccr, p.0)]),
        MappedLocation::StoreQueue(_) => None,
        MappedLocation::Nothing => Some(0),
    }
}

/// A half-word read as two byte reads, at `addr` and `addr + 1`.
pub open spec fn read8_pair(b: BusView, addr: u32) -> Option<u16> {
    if addr < 0xffffffff {
        match (read8(b, addr), read8(b, (addr + 1) as u32)) {
            (Some(lo), Some(hi)) => Some(((hi as u16) << 8u16) | (lo as u16)),
            _ => None,
        }
    } else {
        None
    }
}

/// A half-word read (little-endian), or `None` where it is not carried out.
#[verifier::opaque]
pub open spec fn read16(b: BusView, addr: u32) -> Option<u16> {
    match location(addr) {
        MappedLocation::ExternalAddress(p) => {
            if 0x005f6800 <= p.0 <= 0x005f9fff {
                None
            } else if 0x0c000000 <= p.0 <= 0x0cffffff {
                if p.0 - 0x0c000000 + 2 <= SYSTEM_RAM_SIZE {
                    Some(le_half(b.ram, p.0 - 0x0c000000))
                } else {
                    None
                }
            } else if 0x00800000 <= p.0 <= 0x009fffff {
                if p.0 - 0x00800000 + 2 <= AICA_RAM_SIZE {
                    Some(le_half(b.aica, p.0 - 0x00800000))
                } else {
                    None
                }
            } else {
                read8_pair(b, addr)
            }
        },
        MappedLocation::InternalAddress(p) => {
            if 0x1f800000 <= p.0 <= 0x1f999999 {
                if p.0 == 0x1f800028 {
                    Some(b.bsc.rfcr)
                } else if p.0 == 0x1f800030 {
                    Some(pdtra_read_spec(b.bsc.pctra, b.bsc.pdtra))
                } else {
                    None
                }
            } else if 0x1fd00000 <= p.0 <= 0x1fd0000c {
                None
            } else if 0x1fd80000 <= p.0 <= 0x1fd8002c {
                if p.0 == 0x1fd80010 {
                    Some(b.tmu.tcr0)
                } else if p.0 == 0x1fd8001c {
                    Some(b.tmu.tcr1)
                } else if p.0 == 0x1fd80028 {
                    Some(b.tmu.tcr2)
                } else {
                    None
                }
            } else if p.0 == 0x1fe80010 {
                Some(0x60)
            } else if p.0 == 0x1f000084 || p.0 == 0x1f000088 || 0x1fe80014 <= p.0 <= 0x1fe80024 {
                Some(0)
            } else {
                read8_pair(b, addr)
            }
        },
        _ => read8_pair(b, addr),
    }
}

/// A long-word read as two half-word reads, at `addr` and `addr + 2`.
pub open spec fn read16_pair(b: BusView, addr: u32) -> Option<u32> {
    if addr <= 0xfffffffd {
        match (read16(b, addr), read16(b, (addr + 2) as u32)) {
            (Some(lo), Some(hi)) => Some(((hi as u32) << 16u32) | (lo as u32)),
            _ => None,
        }
    } else {
        None
    }
}

/// A long-word read (little-endian), or `None` where it is not carried out.
#[verifier::opaque]
pub open spec fn read32(b: BusView, addr: u32) -> Option<u32> {
    match location(addr) {
        MappedLocation::ExternalAddress(p) => {
            if p.0 == 0x00702c00 {
                Some(b.armsdt)
            } else if p.0 == 0x00710000 || p.0 == 0x00710004 {
                None
            } else if p.0 == 0x00702040 || p.0 == 0x00702044 || 0x00710008 <= p.0 <= 0x0071000B {
                Some(0)
            } else if 0x0c000000 <= p.0 <= 0x0cffffff {
                if p.0 - 0x0c000000 + 4 <= SYSTEM_RAM_SIZE {
                    Some(le_word(b.ram, p.0 - 0x0c000000))
                } else {
                    None
                }
            } else if 0x005f6800 <= p.0 <= 0x005f9fff {
                None
            } else {
                read16_pair(b, addr)
            }
        },
        MappedLocation::InternalAddress(p) => {
            if 0x1f000000 <= p.0 <= 0x1f00003c {
                if ccn_read32_known(p.0) {
                    Some(ccn_read32_spec(b.ccn, p.0))
                } else {
                    None
                }
            } else if 0x1f800000 <= p.0 <= 0x1f999999 {
                if p.0 == 0x1f80002c {
                    Some(b.bsc.pctra)
                } else {
                    None
                }
            } else if 0x1fd80000 <= p.0 <= 0x1fd8002c {
                if p.0 == 0x1fd8000c {
                    Some(b.tmu.tcnt0)
                } else if p.0 == 0x1fd80024 {
                    Some(b.tmu.tcnt2)
                } else {
                    None
                }
            } else if 0x1fa00000 <= p.0 <= 0x1fa00040 {
                if p.0 == 0x1FA0002C {
                    Some(b.dmac.chcr2)
                } else if p.0 == 0x1fa0001c {
                    Some(b.dmac.chcr1)
                } else if p.0 == 0x1fa0003c {
                    Some(b.dmac.chcr3)
                } else {
                    None
                }
            } else {
                read16_pair(b, addr)
            }
        },
        MappedLocation::OperandCache(p) => {
            if oc_index(b.ccn.ccr, p.0) + 4 <= OPERAND_CACHE_SIZE {
                Some(le_word(b.oc, oc_index(b.ccn.ccr, p.0)))
            } else {
                None
            }
        },
        _ => Some(0),
    }
}

/// The bus after a byte write, or `None` where it is not carried out.
#[verifier::opaque]
pub open spec fn write8(b: BusView, addr: u32, v: u8) -> Option<BusView> {
    match location(addr) {
        MappedLocation::ExternalAddress(p) => {
            if 0x0c000000 <= p.0 <= 0x0cffffff {
                Some(BusView { ram: b.ram.update(p.0 - 0x0c000000, v), ..b })
            } else if 0x0d000000 <= p.0 <= 0x0dffffff {
                Some(BusView { ram: b.ram.update(p.0 - 0x0d000000, v), ..b })
            } else if 0x00800000 <= p.0 <= 0x009fffff {
                Some(b)
            } else {
                None
            }
        },
        MappedLocation::InternalAddress(p) => {
            if 0x1fd80000 <= p.0 <= 0x1fd8002c {
                if p.0 == 0x1fd80000 || p.0 == 0x1fd80004 {
                    Some(BusView { tmu: tmu_write8_spec(b.tmu, p.0, v), ..b })
                } else {
                    None
                }
            } else if 0x1f800000 <= p.0 <= 0x1f999999 || 0x1fc80000 <= p.0 <= 0x1fc8003c || 0x1fc00000
                <= p.0 <= 0x1fc00010 {
                None
            } else if 0x1fe80000 <= p.0 <= 0x1fe80024 || 0x1f200000 <= p.0 <= 0x1f200021 {
                Some(b)
            } else if p.0 == 0x1f000014 {
                Some(BusView { basra: v, ..b })
            } else if p.0 == 0x1f000018 {
                Some(BusView { basrb: v, ..b })
            } else {
                None
            }
        },
        MappedLocation::OperandCache(p) => Some(
            BusView { oc: b.oc.update(oc_index(b.ccn.ccr, p.0), v), ..b },
        ),
        _ => Some(b),
    }
}

/// The bus after a half-word write, or `None` where it is not carried out.
#[verifier::opaque]
pub open spec fn write16(b: BusView, addr: u32, v: u16) -> Option<BusView> {
    match location(addr) {
        MappedLocation::ExternalAddress(p) => {
            if 0x0c000000 <= p.0 <= 0x0cffffff && p.0 - 0x0c000000 + 2 <= SYSTEM_RAM_SIZE {
                Some(BusView { ram: write_le16(b.ram, p.0 - 0x0c000000, v), ..b })
            } else if 0x0d000000 <= p.0 <= 0x0dffffff && p.0 - 0x0d000000 + 2 <= SYSTEM_RAM_SIZE {
                Some(BusView { ram: write_le16(b.ram, p.0 - 0x0d000000, v), ..b })
            } else if 0x00800000 <= p.0 <= 0x009fffff && p.0 - 0x00800000 + 2 <= AICA_RAM_SIZE {
                Some(BusView { aica: write_le16(b.aica, p.0 - 0x00800000, v), ..b })
            } else {
                None
            }
        },
        MappedLocation::InternalAddress(p) => {
            if 0x1f800000 <= p.0 <= 0x1f999999 {
                if bsc_write16_known(p.0) {
                    Some(BusView { bsc: bsc_write16_spec(b.bsc, p.0, v), ..b })
                } else {
                    None
                }
            } else if 0x1fd80000 <= p.0 <= 0x1fd8002c {
                if p.0 == 0x1fd80010 || p.0 == 0x1fd8001c || p.0 == 0x1fd80028 {
                    Some(BusView { tmu: tmu_write16_spec(b.tmu, p.0, v), ..b })
                } else {
                    None
                }
            } else if 0x1fe80000 <= p.0 <= 0x1fe80024 || 0x1f200000 <= p.0 <= 0x1f200021 || 0x1f000084
                <= p.0 <= 0x1f000088 {
                Some(b)
            } else {
                None
            }
        },
        MappedLocation::OperandCache(p) => {
            if oc_index(b.ccn.ccr, p.0) + 2 <= OPERAND_CACHE_SIZE {
                Some(BusView { oc: write_le16(b.oc, oc_index(b.ccn.ccr, p.0), v), ..b })
            } else {
                None
            }
        },
        _ => None,
    }
}

/// The bus after a long-word write, or `None` where it is not carried out.
#[verifier::opaque]
pub open spec fn write32(b: BusView, addr: u32, v: u32) -> Option<BusView> {
    match location(addr) {
        MappedLocation::ExternalAddress(p) => {
            if p.0 == 0x00702c00 {
                Some(BusView { armsdt: v, ..b })
            } else if 0x0c000000 <= p.0 <= 0x0cffffff {
                if p.0 - 0x0c000000 + 4 <= SYSTEM_RAM_SIZE {
                    Some(BusView { ram: write_le32(b.ram, p.0 - 0x0c000000, v), ..b })
                } else {
                    None
                }
            } else if 0x0d000000 <= p.0 <= 0x0dffffff {
                if p.0 - 0x0d000000 + 4 <= SYSTEM_RAM_SIZE {
                    Some(BusView { ram: write_le32(b.ram, p.0 - 0x0d000000, v), ..b })
                } else {
                    None
                }
            } else if 0x00800000 <= p.0 <= 0x009fffff {
                if p.0 - 0x00800000 + 4 <= AICA_RAM_SIZE {
                    Some(BusView { aica: write_le32(b.aica, p.0 - 0x00800000, v), ..b })
                } else {
                    None
                }
            } else if 0x00700000 <= p.0 <= 0x0071000b || 0x14000000 <= p.0 <= 0x17FFFFFF {
                Some(b)
            } else {
                None
            }
        },
        MappedLocation::InternalAddress(p) => {
            if 0x1f000000 <= p.0 <= 0x1f00003c {
                if ccn_write32_known(p.0) {
                    Some(BusView { ccn: ccn_write32_spec(b.ccn, p.0, v), ..b })
                } else {
                    None
                }
            } else if 0x1f800000 <= p.0 <= 0x1f999999 {
                if bsc_write32_known(p.0) {
                    Some(BusView { bsc: bsc_write32_spec(b.bsc, p.0, v), ..b })
                } else {
                    None
                }
            } else if 0x1fa00000 <= p.0 <= 0x1fa00040 {
                Some(BusView { dmac: dmac_write32_spec(b.dmac, p.0, v), ..b })
            } else if 0x1fd80000 <= p.0 <= 0x1fd8002c {
                if tmu_write32_known(p.0) {
                    Some(BusView { tmu: tmu_write32_spec(b.tmu, p.0, v), ..b })
                } else {
                    None
                }
            } else if p.0 == 0x1ffffff8 {
                Some(BusView { unk_val: v, ..b })
            } else if p.0 == 0x1ffffff4 {
                Some(BusView { unk_val1: v, ..b })
            } else if p.0 == 0x1f200000 {
                Some(BusView { bara: v, ..b })
            } else if p.0 == 0x1f20000c {
                Some(BusView { barb: v, ..b })
            } else if 0x1fe80000 <= p.0 <= 0x1fe80024 {
                Some(b)
            } else {
                None
            }
        },
        MappedLocation::OperandCache(p) => {
            if oc_index(b.ccn.ccr, p.0) + 4 <= OPERAND_CACHE_SIZE {
                Some(BusView { oc: write_le32(b.oc, oc_index(b.ccn.ccr, p.0), v), ..b })
            } else {
                None
            }
        },
        MappedLocation::StoreQueue(_) => Some(BusView { sq: b.sq.update(sq_slot(addr), v), ..b }),
        MappedLocation::Nothing => Some(b),
    }
}

/// The SH-4 side of the memory bus.
pub struct CpuBus {
    pub mapper: MemoryMapper,
    pub ccn: Ccn,
    pub bsc: Bsc,
    pub tmu: Tmu,
    pub dmac: Dmac,
    pub intc: Intc,
    pub system_ram: Vec<u8>,
    pub aica_ram: Vec<u8>,
    pub armsdt: u32,
    pub store_queues: [u32; 16],
    pub basra: u8,
    pub basrb: u8,
    pub bara: u32,
    pub barb: u32,
    pub unk_val: u32,
    pub unk_val1: u32,
}

impl CpuBus {
    pub open spec fn view(&self) -> BusView {
        BusView {
            ram: self.system_ram@,
            aica: self.aica_ram@,
            oc: self.ccn.ram(),
            ccn: self.ccn.registers,
            bsc: self.bsc.registers,
            tmu: self.tmu.registers,
            dmac: self.dmac.registers,
            armsdt: self.armsdt,
            sq: self.store_queues@,
            basra: self.basra,
            basrb: self.basrb,
            bara: self.bara,
            barb: self.barb,
            unk_val: self.unk_val,
            unk_val1: self.unk_val1,
        }
    }

    /// The address map is the SH-4's, and the memories have their sizes.
    pub open spec fn wf(&self) -> bool {
        &&& self.mapper@ == sh4_ranges()
        &&& self.system_ram@.len() == SYSTEM_RAM_SIZE
        &&& self.aica_ram@.len() == AICA_RAM_SIZE
        &&& self.ccn.wf()
        &&& self.bsc.wf()
    }

    /// A bus with the SH-4 address map, cleared memories and the given
    /// interrupt controller.
    pub fn new(intc: Intc) -> (r: Self)
        ensures
            r.wf(),
            r.intc == intc,
            forall|i: int| 0 <= i < SYSTEM_RAM_SIZE ==> r.view().ram[i] == 0,
            forall|i: int| 0 <= i < AICA_RAM_SIZE ==> r.view().aica[i] == 0,
            forall|i: int| 0 <= i < 16 ==> r.view().sq[i] == 0,
            r.armsdt == 0 && r.bara == 0 && r.barb == 0 && r.basra == 0 && r.basrb == 0,
            r.unk_val == 0 && r.unk_val1 == 0,
    {
        let mut mapper = MemoryMapper::new();
        let ext = MappedLocation::ExternalAddress(PhysicalAddress(0));
        mapper.add_range(MappedRange { start: LogicalAddress(0), size: 0x1bffffff, location: ext });
        mapper.add_range(MappedRange { start: LogicalAddress(0x20000000), size: 0x1bffffff, location: ext });
        mapper.add_range(MappedRange { start: LogicalAddress(0x40000000), size: 0x1bffffff, location: ext });
        mapper.add_range(MappedRange { start: LogicalAddress(0x60000000), size: 0x1bffffff, location: ext });
        mapper.add_range(
            MappedRange {
                start: LogicalAddress(0x7c000000),
                size: 0x3ffffff,
                location: MappedLocation::OperandCache(PhysicalAddress(0)),
            },
        );
        mapper.add_range(MappedRange { start: LogicalAddress(0x80000000), size: 0x1bffffff, location: ext });
        mapper.add_range(MappedRange { start: LogicalAddress(0xa0000000), size: 0x1bffffff, location: ext });
        mapper.add_range(MappedRange { start: LogicalAddress(0xc0000000), size: 0x1bffffff, location: ext });
        mapper.add_range(
            MappedRange {
                start: LogicalAddress(0xfc000000),
                size: 0x3ffffff,
                location: MappedLocation::InternalAddress(PhysicalAddress(0x1c000000)),
            },
        );
        mapper.add_range(
            MappedRange {
                start: LogicalAddress(0xe0000000),
                size: 0x3ffffff,
                location: MappedLocation::StoreQueue(PhysicalAddress(0xe0000000)),
            },
        );
        proof {
            assert(mapper@ =~= sh4_ranges());
        }
        CpuBus {
            mapper,
            ccn: Ccn::new(),
            bsc: Bsc::new(),
            tmu: Tmu::new(),
            dmac: Dmac::new(),
            intc,
            system_ram: vec![0; SYSTEM_RAM_SIZE],
            aica_ram: vec![0; AICA_RAM_SIZE],
            armsdt: 0,
            store_queues: [0; 16],
            basra: 0,
            basrb: 0,
            bara: 0,
            barb: 0,
            unk_val: 0,
            unk_val1: 0,
        }
    }

    fn location_of(&self, addr: u32) -> (r: MappedLocation)
        requires
            self.wf(),
        ensures
            r == location(addr),
    {
        self.mapper.translate(LogicalAddress(addr))
    }

    /// A byte read; `None` where the access is not carried out here.
    pub fn read_8(&self, addr: u32) -> (r: Option<u8>)
        requires
            self.wf(),
        ensures
            r == read8(self.view(), addr),
    {
        reveal(read8);
        match self.location_of(addr) {
            MappedLocation::ExternalAddress(p) => {
                let a = p.0;
                if 0x00800000 <= a && a <= 0x009fffff {
                    Some(self.aica_ram[(a - 0x00800000) as usize])
                } else if 0x00600000 <= a && a <= 0x006fffff {
                    Some(0)
                } else if 0x0c000000 <= a && a <= 0x0cffffff {
                    Some(self.system_ram[(a - 0x0c000000) as usize])
                } else if 0x0d000000 <= a && a <= 0x0dffffff {
                    Some(self.system_ram[(a - 0x0d000000) as usize])
                } else {
                    None
                }
            },
            MappedLocation::InternalAddress(p) => {
                if p.0 == 0x1FE80004 || p.0 == 0x1fc0000c {
                    Some(0)
                } else if p.0 == 0x1fd80004 {
                    Some(self.tmu.read_8(p))
                } else {
                    None
                }
            },
            MappedLocation::OperandCache(p) => Some(self.ccn.read_oc_8(p)),
            MappedLocation::StoreQueue(_) => None,
            MappedLocation::Nothing => Some(0),
        }
    }

    fn read_8_pair(&self, addr: u32) -> (r: Option<u16>)
        requires
            self.wf(),
        ensures
            r == read8_pair(self.view(), addr),
    {
        if addr < 0xffffffff {
            let lo = self.read_8(addr);
            let hi = self.read_8(addr + 1);
            match (lo, hi) {
                (Some(lo), Some(hi)) => Some(((hi as u16) << 8u16) | (lo as u16)),
                _ => None,
            }
        } else {
            None
        }
    }

    /// A little-endian half-word read; `None` where the access is not
    /// carried out here.
    pub fn read_16(&self, addr: u32) -> (r: Option<u16>)
        requires
            self.wf(),
        ensures
            r == read16(self.view(), addr),
    {
        reveal(read16);
        match self.location_of(addr) {
            MappedLocation::ExternalAddress(p) => {
                let a = p.0;
                if 0x005f6800 <= a && a <= 0x005f9fff {
                    None
                } else if 0x0c000000 <= a && a <= 0x0cffffff {
                    let off = (a - 0x0c000000) as usize;
                    if off + 2 <= SYSTEM_RAM_SIZE {
                        Some((self.system_ram[off] as u16) | ((self.system_ram[off + 1] as u16) << 8u16))
                    } else {
                        None
                    }
                } else if 0x00800000 <= a && a <= 0x009fffff {
                    let off = (a - 0x00800000) as usize;
                    if off + 2 <= AICA_RAM_SIZE {
                        Some((self.aica_ram[off] as u16) | ((self.aica_ram[off + 1] as u16) << 8u16))
                    } else {
                        None
                    }
                } else {
                    self.read_8_pair(addr)
                }
            },
            MappedLocation::InternalAddress(p) => {
                let a = p.0;
                if 0x1f800000 <= a && a <= 0x1f999999 {
                    if a == 0x1f800028 || a == 0x1f800030 {
                        Some(self.bsc.read_16(p))
                    } else {
                        None
                    }
                } else if 0x1fd00000 <= a && a <= 0x1fd0000c {
                    None
                } else if 0x1fd80000 <= a && a <= 0x1fd8002c {
                    if a == 0x1fd80010 || a == 0x1fd8001c || a == 0x1fd80028 {
                        Some(self.tmu.read_16(p))
                    } else {
                        None
                    }
                } else if a == 0x1fe80010 {
                    Some(0x60)
                } else if a == 0x1f000084 || a == 0x1f000088 || (0x1fe80014 <= a && a <= 0x1fe80024) {
                    Some(0)
                } else {
                    self.read_8_pair(addr)
                }
            },
            _ => self.read_8_pair(addr),
        }
    }

    fn read_16_pair(&self, addr: u32) -> (r: Option<u32>)
        requires
            self.wf(),
        ensures
            r == read16_pair(self.view(), addr),
    {
        if addr <= 0xfffffffd {
            let lo = self.read_16(addr);
            let hi = self.read_16(addr + 2);
            match (lo, hi) {
                (Some(lo), Some(hi)) => Some(((hi as u32) << 16u32) | (lo as u32)),
                _ => None,
            }
        } else {
            None
        }
    }

    /// A little-endian long-word read; `None` where the access is not
    /// carried out here.
    pub fn read_32(&self, addr: u32) -> (r: Option<u32>)
        requires
            self.wf(),
        ensures
            r == read32(self.view(), addr),
    {
        reveal(read32);
        match self.location_of(addr) {
            MappedLocation::ExternalAddress(p) => {
                let a = p.0;
                if a == 0x00702c00 {
                    Some(self.armsdt)
                } else if a == 0x00710000 || a == 0x00710004 {
                    None
                } else if a == 0x00702040 || a == 0x00702044 || (0x00710008 <= a && a <= 0x0071000B) {
                    Some(0)
                } else if 0x0c000000 <= a && a <= 0x0cffffff {
                    let off = (a - 0x0c000000) as usize;
                    if off + 4 <= SYSTEM_RAM_SIZE {
                        Some((self.system_ram[off] as u32) | ((self.system_ram[off + 1] as u32) << 8u32)
                            | ((self.system_ram[off + 2] as u32) << 16u32) | ((self.system_ram[off + 3] as u32) << 24u32))
                    } else {
                        None
                    }
                } else if 0x005f6800 <= a && a <= 0x005f9fff {
                    None
                } else {
                    self.read_16_pair(addr)
                }
            },
            MappedLocation::InternalAddress(p) => {
                let a = p.0;
                if 0x1f000000 <= a && a <= 0x1f00003c {
                    if a == 0x1f000024 || a == 0x1f00001c || a == 0x1f000028 || a == 0x1f000030 || a == 0x1f000010 {
                        Some(self.ccn.read_32(p))
                    } else {
                        None
                    }
                } else if 0x1f800000 <= a && a <= 0x1f999999 {
                    if a == 0x1f80002c {
                        Some(self.bsc.read_32(p))
                    } else {
                        None
                    }
                } else if 0x1fd80000 <= a && a <= 0x1fd8002c {
                    if a == 0x1fd8000c || a == 0x1fd80024 {
                        Some(self.tmu.read_32(p))
                    } else {
                        None
                    }
                } else if 0x1fa00000 <= a && a <= 0x1fa00040 {
                    if a == 0x1FA0002C || a == 0x1fa0001c || a == 0x1fa0003c {
                        Some(self.dmac.read_32(p))
                    } else {
                        None
                    }
                } else {
                    self.read_16_pair(addr)
                }
            },
            MappedLocation::OperandCache(p) => {
                if self.ccn.oc_index_of(p) + 4 <= OPERAND_CACHE_SIZE {
                    Some(self.ccn.read_oc_32(p))
                } else {
                    None
                }
            },
            _ => Some(0),
        }
    }

    fn set_ram_32(&mut self, off: usize, value: u32)
        requires
            old(self).wf(),
            off + 4 <= SYSTEM_RAM_SIZE,
        ensures
            final(self).wf(),
            final(self).intc == old(self).intc,
            final(self).view() == (BusView { ram: write_le32(old(self).view().ram, off as int, value), ..old(self).view() }),
    {
        self.system_ram.set(off, (value & 0xff) as u8);
        self.system_ram.set(off + 1, ((value >> 8u32) & 0xff) as u8);
        self.system_ram.set(off + 2, ((value >> 16u32) & 0xff) as u8);
        self.system_ram.set(off + 3, ((value >> 24u32) & 0xff) as u8);
    }

    fn set_ram_16(&mut self, off: usize, value: u16)
        requires
            old(self).wf(),
            off + 2 <= SYSTEM_RAM_SIZE,
        ensures
            final(self).wf(),
            final(self).intc == old(self).intc,
            final(self).view() == (BusView { ram: write_le16(old(self).view().ram, off as int, value), ..old(self).view() }),
    {
        self.system_ram.set(off, (value & 0xff) as u8);
        self.system_ram.set(off + 1, ((value >> 8u16) & 0xff) as u8);
    }

    fn set_aica_32(&mut self, off: usize, value: u32)
        requires
            old(self).wf(),
            off + 4 <= AICA_RAM_SIZE,
        ensures
            final(self).wf(),
            final(self).intc == old(self).intc,
            final(self).view() == (BusView { aica: write_le32(old(self).view().aica, off as int, value), ..old(self).view() }),
    {
        self.aica_ram.set(off, (value & 0xff) as u8);
        self.aica_ram.set(off + 1, ((value >> 8u32) & 0xff) as u8);
        self.aica_ram.set(off + 2, ((value >> 16u32) & 0xff) as u8);
        self.aica_ram.set(off + 3, ((value >> 24u32) & 0xff) as u8);
    }

    fn set_aica_16(&mut self, off: usize, value: u16)
        requires
            old(self).wf(),
            off + 2 <= AICA_RAM_SIZE,
        ensures
            final(self).wf(),
            final(self).intc == old(self).intc,
            final(self).view() == (BusView { aica: write_le16(old(self).view().aica, off as int, value), ..old(self).view() }),
    {
        self.aica_ram.set(off, (value & 0xff) as u8);
        self.aica_ram.set(off + 1, ((value >> 8u16) & 0xff) as u8);
    }

    /// A byte write; answers whether it was carried out here (when not,
    /// nothing changed).
    pub fn write_8(&mut self, addr: u32, value: u8) -> (r: bool)
        requires
            old(self).wf(),
        ensures
            final(self).wf(),
            final(self).intc == old(self).intc,
            match write8(old(self).view(), addr, value) {
                Some(b) => r && final(self).view() == b,
                None => !r && final(self).view() == old(self).view(),
            },
    {
        reveal(write8);
        match self.location_of(addr) {
            MappedLocation::ExternalAddress(p) => {
                let a = p.0;
                if 0x0c000000 <= a && a <= 0x0cffffff {
                    self.system_ram.set((a - 0x0c000000) as usize, value);
                    true
                } else if 0x0d000000 <= a && a <= 0x0dffffff {
                    self.system_ram.set((a - 0x0d000000) as usize, value);
                    true
                } else {
                    0x00800000 <= a && a <= 0x009fffff
                }
            },
            MappedLocation::InternalAddress(p) => {
                let a = p.0;
                if 0x1fd80000 <= a && a <= 0x1fd8002c {
                    if a == 0x1fd80000 || a == 0x1fd80004 {
                        self.tmu.write_8(p, value);
                        true
                    } else {
                        false
                    }
                } else if (0x1f800000 <= a && a <= 0x1f999999) || (0x1fc80000 <= a && a <= 0x1fc8003c) || (
                0x1fc00000 <= a && a <= 0x1fc00010) {
                    false
                } else if (0x1fe80000 <= a && a <= 0x1fe80024) || (0x1f200000 <= a && a <= 0x1f200021) {
                    true
                } else if a == 0x1f000014 {
                    self.basra = value;
                    true
                } else if a == 0x1f000018 {
                    self.basrb = value;
                    true
                } else {
                    false
                }
            },
            MappedLocation::OperandCache(p) => {
                self.ccn.write_oc_8(p, value);
                true
            },
            _ => true,
        }
    }

    /// A little-endian half-word write; answers whether it was carried out
    /// here (when not, nothing changed).
    pub fn write_16(&mut self, addr: u32, value: u16) -> (r: bool)
        requires
            old(self).wf(),
        ensures
            final(self).wf(),
            final(self).intc == old(self).intc,
            match write16(old(self).view(), addr, value) {
                Some(b) => r && final(self).view() == b,
                None => !r && final(self).view() == old(self).view(),
            },
    {
        reveal(write16);
        match self.location_of(addr) {
            MappedLocation::ExternalAddress(p) => {
                let a = p.0;
                if 0x0c000000 <= a && a <= 0x0cffffff && ((a - 0x0c000000) as usize) + 2 <= SYSTEM_RAM_SIZE {
                    self.set_ram_16((a - 0x0c000000) as usize, value);
                    true
                } else if 0x0d000000 <= a && a <= 0x0dffffff && ((a - 0x0d000000) as usize) + 2 <= SYSTEM_RAM_SIZE {
                    self.set_ram_16((a - 0x0d000000) as usize, value);
                    true
                } else if 0x00800000 <= a && a <= 0x009fffff && ((a - 0x00800000) as usize) + 2 <= AICA_RAM_SIZE {
                    self.set_aica_16((a - 0x00800000) as usize, value);
                    true
                } else {
                    false
                }
            },
            MappedLocation::InternalAddress(p) => {
                let a = p.0;
                if 0x1f800000 <= a && a <= 0x1f999999 {
                    if a == 0x1f800004 || a == 0x1f800018 || a == 0x1f80001c || a == 0x1f800024 || a
                        == 0x1f800028 || a == 0x1f800030 || a == 0x1f800044 || a == 0x1f800048 {
                        self.bsc.write_16(p, value);
                        true
                    } else {
                        false
                    }
                } else if 0x1fd80000 <= a && a <= 0x1fd8002c {
                    if a == 0x1fd80010 || a == 0x1fd8001c || a == 0x1fd80028 {
                        self.tmu.write_16(p, value);
                        true
                    } else {
                        false
                    }
                } else {
                    (0x1fe80000 <= a && a <= 0x1fe80024) || (0x1f200000 <= a && a <= 0x1f200021) || (0x1f000084
                        <= a && a <= 0x1f000088)
                }
            },
            MappedLocation::OperandCache(p) => {
                if self.ccn.oc_index_of(p) + 2 <= OPERAND_CACHE_SIZE {
                    self.ccn.write_oc_16(p, value);
                    true
                } else {
                    false
                }
            },
            _ => false,
        }
    }

    /// A little-endian long-word write; answers whether it was carried out
    /// here (when not, nothing changed).
    pub fn write_32(&mut self, addr: u32, value: u32) -> (r: bool)
        requires
            old(self).wf(),
        ensures
            final(self).wf(),
            final(self).intc == old(self).intc,
            match write32(old(self).view(), addr, value) {
                Some(b) => r && final(self).view() == b,
                None => !r && final(self).view() == old(self).view(),
            },
    {
        reveal(write32);
        match self.location_of(addr) {
            MappedLocation::ExternalAddress(p) => {
                let a = p.0;
                if a == 0x00702c00 {
                    self.armsdt = value;
                    true
                } else if 0x0c000000 <= a && a <= 0x0cffffff {
                    if ((a - 0x0c000000) as usize) + 4 <= SYSTEM_RAM_SIZE {
                        self.set_ram_32((a - 0x0c000000) as usize, value);
                        true
                    } else {
                        false
                    }
                } else if 0x0d000000 <= a && a <= 0x0dffffff {
                    if ((a - 0x0d000000) as usize) + 4 <= SYSTEM_RAM_SIZE {
                        self.set_ram_32((a - 0x0d000000) as usize, value);
                        true
                    } else {
                        false
                    }
                } else if 0x00800000 <= a && a <= 0x009fffff {
                    if ((a - 0x00800000) as usize) + 4 <= AICA_RAM_SIZE {
                        self.set_aica_32((a - 0x00800000) as usize, value);
                        true
                    } else {
                        false
                    }
                } else {
                    (0x00700000 <= a && a <= 0x0071000b) || (0x14000000 <= a && a <= 0x17FFFFFF)
                }
            },
            MappedLocation::InternalAddress(p) => {
                let a = p.0;
                if 0x1f000000 <= a && a <= 0x1f00003c {
                    if a == 0x1f000000 || a == 0x1f000004 || a == 0x1f000008 || a == 0x1f00000c || a
                        == 0x1f000010 || a == 0x1f00001c || a == 0x1f000020 || a == 0x1f000024 || a
                        == 0x1f000028 || a == 0x1f000034 || a == 0x1f000038 || a == 0x1f00003c {
                        self.ccn.write_32(p, value);
                        true
                    } else {
                        false
                    }
                } else if 0x1f800000 <= a && a <= 0x1f999999 {
                    if a == 0x1f800000 || a == 0x1f800008 || a == 0x1f800010 || a == 0x1f800014 || a
                        == 0x1f80002c || a == 0x1f800040 || a == 0x1f80000c {
                        self.bsc.write_32(p, value);
                        true
                    } else {
                        false
                    }
                } else if 0x1fa00000 <= a && a <= 0x1fa00040 {
                    self.dmac.write_32(p, value);
                    true
                } else if 0x1fd80000 <= a && a <= 0x1fd8002c {
                    if a == 0x1fd80008 || a == 0x1fd80014 || a == 0x1fd80018 || a == 0x1fd80020 || a
                        == 0x1fd80024 || a == 0x1fd8000c {
                        self.tmu.write_32(p, value);
                        true
                    } else {
                        false
                    }
                } else if a == 0x1ffffff8 {
                    self.unk_val = value;
                    true
                } else if a == 0x1ffffff4 {
                    self.unk_val1 = value;
                    true
                } else if a == 0x1f200000 {
                    self.bara = value;
                    true
                } else if a == 0x1f20000c {
                    self.barb = value;
                    true
                } else {
                    0x1fe80000 <= a && a <= 0x1fe80024
                }
            },
            MappedLocation::OperandCache(p) => {
                if self.ccn.oc_index_of(p) + 4 <= OPERAND_CACHE_SIZE {
                    self.ccn.write_oc_32(p, value);
                    true
                } else {
                    false
                }
            },
            MappedLocation::StoreQueue(_) => {
                let a = addr & 0x1FFFFFFF;
                proof {
                    lemma_sq_slot_bound(a);
                }
                let slot = (((a >> 5u32) & 1) * 8 + ((a & 0x1c) >> 2u32)) as usize;
                self.store_queues[slot] = value;
                true
            },
            MappedLocation::Nothing => true,
        }
    }
}

proof fn lemma_sq_slot_bound(a: u32)
    by (bit_vector)
    ensures
        (a >> 5u32) & 1 <= 1,
        (a & 0x1c) >> 2u32 <= 7,
{
}

/// A long word written to system RAM is read back unchanged from the same
/// address.
pub proof fn law_ram_write_read32(b: BusView, addr: u32, v: u32)
    requires
        b.ram.len() == SYSTEM_RAM_SIZE,
        location(addr) matches MappedLocation::ExternalAddress(p) && 0x0c000000 <= p.0 <= 0x0cffffff
            && p.0 - 0x0c000000 + 4 <= SYSTEM_RAM_SIZE,
    ensures
        write32(b, addr, v) matches Some(after) && read32(after, addr) == Some(v),
{
    reveal(read32);
    reveal(write32);
    let p = location(addr)->ExternalAddress_0;
    lemma_write_le32_read(b.ram, p.0 - 0x0c000000, v);
}

/// A half-word written to system RAM is read back unchanged from the same
/// address.
pub proof fn law_ram_write_read16(b: BusView, addr: u32, v: u16)
    requires
        b.ram.len() == SYSTEM_RAM_SIZE,
        location(addr) matches MappedLocation::ExternalAddress(p) && 0x0c000000 <= p.0 <= 0x0cffffff
            && p.0 - 0x0c000000 + 2 <= SYSTEM_RAM_SIZE,
    ensures
        write16(b, addr, v) matches Some(after) && read16(after, addr) == Some(v),
{
    reveal(read16);
    reveal(write16);
    let p = location(addr)->ExternalAddress_0;
    lemma_write_le16_read(b.ram, p.0 - 0x0c000000, v);
}

/// A byte written to system RAM is read back unchanged from the same
/// address, and a write to one byte leaves every other RAM byte as it was.
pub proof fn law_ram_write_read8(b: BusView, addr: u32, v: u8, other: u32)
    requires
        b.ram.len() == SYSTEM_RAM_SIZE,
        location(addr) matches MappedLocation::ExternalAddress(p) && 0x0c000000 <= p.0 <= 0x0cffffff,
        location(other) matches MappedLocation::ExternalAddress(q) && 0x0c000000 <= q.0 <= 0x0cffffff,
        location(other) != location(addr),
    ensures
        write8(b, addr, v) matches Some(after) && read8(after, addr) == Some(v) && read8(after, other)
            == read8(b, other),
{
    reveal(read8);
    reveal(write8);
}

/// Where an address in P1 (from 0x80000000) or P2 (from 0xA0000000) below
/// their last byte lands: the external address below 0x1C000000 it maps to.
proof fn lemma_location_p1_p2(addr: u32)
    requires
        0x80000000 <= addr < 0x80000000 + 0x1bffffff || 0xa0000000 <= addr < 0xa0000000 + 0x1bffffff,
    ensures
        location(addr) == MappedLocation::ExternalAddress(
            PhysicalAddress(if addr < 0xa0000000 { (addr - 0x80000000) as u32 } else { (addr - 0xa0000000) as u32 }),
        ),
{
    reveal_with_fuel(translate_spec, 8);
}

/// A long word written to system RAM through P1 is read back through P2:
/// both windows reach the same bytes.
pub proof fn law_p1_write_p2_read(b: BusView, offset: u32, v: u32)
    requires
        b.ram.len() == SYSTEM_RAM_SIZE,
        offset + 4 <= SYSTEM_RAM_SIZE,
    ensures
        write32(b, (0x8c000000 + offset) as u32, v) matches Some(after) && read32(after, (0xac000000 + offset) as u32)
            == Some(v),
{
    lemma_location_p1_p2((0x8c000000 + offset) as u32);
    lemma_location_p1_p2((0xac000000 + offset) as u32);
    reveal(read32);
    reveal(write32);
    lemma_write_le32_read(b.ram, offset as int, v);
}

} // verus!
