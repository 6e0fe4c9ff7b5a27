//! The memory that a program loaded directly (without the boot ROM running
//! first) finds at start: IP.BIN, a snapshot of system RAM, the BIOS's own
//! copy of itself, a few flash settings, the system vectors and patched
//! entry points.
use crate::hw::holly::g1::boot_rom::{boot_rom_byte, BootROM};
use crate::hw::sh4::bus::PhysicalAddress;
use crate::hw::sh4::cpu::wrap32;
use crate::hw::sh4::cpu_bus::{write16, write32, write8, BusView, CpuBus, SYSTEM_RAM_SIZE};
use vstd::prelude::*;

verus! {

/// One write of the memory image: `width` bytes (1, 2, else 4) of `value`
/// at `addr`.
#[derive(Copy, Clone, Debug, PartialEq, Eq, Structural)]
pub struct MemWrite {
    pub addr: u32,
    pub value: u32,
    pub width: u8,
}

/// The bus after one write, or `None` where the bus does not carry it out.
pub open spec fn apply_write(b: BusView, w: MemWrite) -> Option<BusView> {
    if w.width == 1 {
        write8(b, w.addr, w.value as u8)
    } else if w.width == 2 {
        write16(b, w.addr, w.value as u16)
    } else {
        write32(b, w.addr, w.value)
    }
}

/// The bus after the writes in order, and whether all were carried out
/// (they stop at the first that is not).
pub open spec fn apply_writes(b: BusView, ws: Seq<MemWrite>) -> (BusView, bool)
    decreases ws.len(),
{
    if ws.len() == 0 {
        (b, true)
    } else {
        match apply_write(b, ws[0]) {
            Some(nb) => apply_writes(nb, ws.drop_first()),
            None => (b, false),
        }
    }
}

/// The bytes of `bytes` written one by one from `addr` on.
pub open spec fn byte_writes(addr: u32, bytes: Seq<u8>) -> Seq<MemWrite> {
    Seq::new(bytes.len(), |i: int| MemWrite { addr: wrap32(addr + i), value: bytes[i] as u32, width: 1 })
}

/// The half-word the boot ROM holds at `raw`, little-endian.
pub open spec fn rom_half(bios: Seq<u8>, flash: Seq<u8>, raw: u32) -> u32 {
    (((boot_rom_byte(bios, flash, (raw + 1) as u32) as u16) << 8u16) | (boot_rom_byte(bios, flash, raw) as u16)) as u32
}

/// The system vectors: the sixteen half-words of the boot ROM from 0xFE
/// down, written from 0x8C0000E0 up.
pub open spec fn vector_writes(bios: Seq<u8>, flash: Seq<u8>) -> Seq<MemWrite> {
    Seq::new(16, |i: int| MemWrite { addr: (0x8C0000E0 + 2 * i) as u32, value: rom_half(bios, flash, (0xFE - 2 * i) as u32), width: 2 })
}

/// What goes to memory before the BIOS copies itself: IP.BIN at
/// 0xAC008000, the RAM snapshot at 0x0C000000, a flag at 0x8C03A044 and the
/// system vectors.
pub open spec fn first_writes(ip_bin: Seq<u8>, ref_ram: Seq<u8>, bios: Seq<u8>, flash: Seq<u8>) -> Seq<MemWrite> {
    byte_writes(0xAC008000, ip_bin) + byte_writes(0x0c000000, ref_ram) + seq![
        MemWrite { addr: 0x8c03a044, value: 1, width: 4 },
    ] + vector_writes(bios, flash)
}

/// System RAM after the BIOS copies itself: its bytes 0x100 to 0x4000 and
/// 0x8000 to 0x200000 over the same RAM offsets.
pub open spec fn bios_copied(ram: Seq<u8>, bios: Seq<u8>) -> Seq<u8> {
    Seq::new(ram.len(), |i: int| if (0x100 <= i < 0x4000) || (0x8000 <= i < 0x200000) { bios[i] } else { ram[i] })
}

/// The flash settings copied to 0x8C000068: eight bytes from 0x0021A056,
/// then five from 0x0021A000.
pub open spec fn flash_writes(bios: Seq<u8>, flash: Seq<u8>) -> Seq<MemWrite> {
    Seq::new(8, |i: int| MemWrite { addr: (0x8C000068 + i) as u32, value: boot_rom_byte(bios, flash, (0x0021A056 + i) as u32) as u32, width: 1 })
        + Seq::new(5, |i: int| MemWrite { addr: (0x8C000070 + i) as u32, value: boot_rom_byte(bios, flash, (0x0021A000 + i) as u32) as u32, width: 1 })
}

/// Thirteen fixed bytes after the flash settings, then the patched entry
/// points (idle loops, RTE and RTS stubs) and system variables.
pub open spec fn patch_writes() -> Seq<MemWrite> {
    seq![
        MemWrite { addr: 0x8C000075, value: 0x00, width: 1 },
        MemWrite { addr: 0x8C000076, value: 0x00, width: 1 },
        MemWrite { addr: 0x8C000077, value: 0x89, width: 1 },
        MemWrite { addr: 0x8C000078, value: 0xFC, width: 1 },
        MemWrite { addr: 0x8C000079, value: 0x5B, width: 1 },
        MemWrite { addr: 0x8C00007A, value: 0xFF, width: 1 },
        MemWrite { addr: 0x8C00007B, value: 0x01, width: 1 },
        MemWrite { addr: 0x8C00007C, value: 0x00, width: 1 },
        MemWrite { addr: 0x8C00007D, value: 0x00, width: 1 },
        MemWrite { addr: 0x8C00007E, value: 0x7D, width: 1 },
        MemWrite { addr: 0x8C00007F, value: 0x0A, width: 1 },
        MemWrite { addr: 0x8C000080, value: 0x62, width: 1 },
        MemWrite { addr: 0x8C000081, value: 0x61, width: 1 },
        MemWrite { addr: 0x8C000000, value: 0x00090009, width: 4 },
        MemWrite { addr: 0x8C000004, value: 0x001B0009, width: 4 },
        MemWrite { addr: 0x8C000008, value: 0x0009AFFD, width: 4 },
        MemWrite { addr: 0x8C00000C, value: 0, width: 2 },
        MemWrite { addr: 0x8C00000E, value: 0, width: 2 },
        MemWrite { addr: 0x8C000010, value: 0x00090009, width: 4 },
        MemWrite { addr: 0x8C000014, value: 0x0009002B, width: 4 },
        MemWrite { addr: 0x8C000018, value: 0x00090009, width: 4 },
        MemWrite { addr: 0x8C00001C, value: 0x0009000B, width: 4 },
        MemWrite { addr: 0x8C00002C, value: 0x16, width: 1 },
        MemWrite { addr: 0x8C000064, value: 0x8c008100, width: 4 },
        MemWrite { addr: 0x8C000090, value: 0, width: 2 },
        MemWrite { addr: 0x8C000092, value: 0xFF80, width: 2 },
        MemWrite { addr: 0x8C0000AC, value: 0xA05F7000, width: 4 },
        MemWrite { addr: 0x8C0000A8, value: 0xA0200000, width: 4 },
        MemWrite { addr: 0x8C0000A4, value: 0xA0100000, width: 4 },
        MemWrite { addr: 0x8C0000A0, value: 0x00000000, width: 4 },
        MemWrite { addr: 0x8C00002C, value: 0x00000000, width: 4 },
        MemWrite { addr: 0x8CFFFFF8, value: 0x8C000128, width: 4 },
        MemWrite { addr: 0xAC0090D8, value: 0x5113, width: 2 },
        MemWrite { addr: 0xAC00940A, value: 0x000B, width: 2 },
        MemWrite { addr: 0xAC00940C, value: 0x0009, width: 2 },
    ]
}

/// The writes in order; answers whether all were carried out (they stop at
/// the first that is not).
pub fn apply_list(bus: &mut CpuBus, ws: &Vec<MemWrite>) -> (r: bool)
    requires
        old(bus).wf(),
    ensures
        final(bus).wf(),
        final(bus).intc == old(bus).intc,
        (final(bus).view(), r) == apply_writes(old(bus).view(), ws@),
{
    let mut k: usize = 0;
    proof {
        assert(ws@.skip(0) =~= ws@);
    }
    while k < ws.len()
        invariant
            k <= ws@.len(),
            bus.wf(),
            bus.intc == old(bus).intc,
            apply_writes(old(bus).view(), ws@) == apply_writes(bus.view(), ws@.skip(k as int)),
        decreases ws.len() - k,
    {
        let w = ws[k];
        proof {
            assert(ws@.skip(k as int).drop_first() =~= ws@.skip(k as int + 1));
            assert(ws@.skip(k as int)[0] == w);
        }
        let ok = if w.width == 1 {
            bus.write_8(w.addr, w.value as u8)
        } else if w.width == 2 {
            bus.write_16(w.addr, w.value as u16)
        } else {
            bus.write_32(w.addr, w.value)
        };
        if !ok {
            return false;
        }
        k = k + 1;
    }
    proof {
        assert(ws@.skip(k as int) =~= Seq::<MemWrite>::empty());
    }
    true
}

/// Appends the bytes of `bytes` as byte writes from `addr` on.
fn push_bytes(v: &mut Vec<MemWrite>, addr: u32, bytes: &[u8])
    requires
        bytes@.len() <= u32::MAX,
    ensures
        final(v)@ == old(v)@ + byte_writes(addr, bytes@),
{
    let n = bytes.len();
    let mut i: usize = 0;
    while i < n
        invariant
            n == bytes@.len(),
            n <= u32::MAX,
            i <= n,
            v@ == old(v)@ + byte_writes(addr, bytes@).take(i as int),
        decreases n - i,
    {
        v.push(MemWrite { addr: addr.wrapping_add(i as u32), value: bytes[i] as u32, width: 1 });
        proof {
            assert(byte_writes(addr, bytes@).take(i as int + 1) =~= byte_writes(addr, bytes@).take(i as int).push(
                byte_writes(addr, bytes@)[i as int],
            ));
        }
        i = i + 1;
    }
    proof {
        assert(byte_writes(addr, bytes@).take(n as int) =~= byte_writes(addr, bytes@));
    }
}

/// Lays out the memory a directly loaded program starts with (see
/// `first_writes`, `bios_copied`, `flash_writes` and `patch_writes`), and
/// answers whether every write was carried out. Holly's G1 bus register at
/// 0xA05F74E4 lies on the other side of the bus and is left to its owner.
#[verifier::loop_isolation(false)]
pub fn prepare_boot_memory(bus: &mut CpuBus, rom: &BootROM, ip_bin: &[u8], ref_ram: &[u8]) -> (r: bool)
    requires
        old(bus).wf(),
        rom.bios@.len() >= 0x200000,
        rom.flash@.len() >= 0x1A05E,
        ip_bin@.len() <= u32::MAX,
        ref_ram@.len() <= u32::MAX,
    ensures
        final(bus).wf(),
        final(bus).intc == old(bus).intc,
        ({
            let (b1, ok1) = apply_writes(old(bus).view(), first_writes(ip_bin@, ref_ram@, rom.bios@, rom.flash@));
            if !ok1 {
                !r && final(bus).view() == b1
            } else {
                let b2 = BusView { ram: bios_copied(b1.ram, rom.bios@), ..b1 };
                let (b3, ok2) = apply_writes(b2, flash_writes(rom.bios@, rom.flash@) + patch_writes());
                r == ok2 && final(bus).view() == b3
            }
        }),
{
    let mut first: Vec<MemWrite> = Vec::new();
    push_bytes(&mut first, 0xAC008000, ip_bin);
    push_bytes(&mut first, 0x0c000000, ref_ram);
    first.push(MemWrite { addr: 0x8c03a044, value: 1, width: 4 });
    let ghost before_vectors = first@;
    let mut i: u32 = 0;
    while i < 16
        invariant
            i <= 16,
            rom.bios@.len() >= 0x200000,
            first@ == before_vectors + vector_writes(rom.bios@, rom.flash@).take(i as int),
        decreases 16 - i,
    {
        let lo = rom.read_8(PhysicalAddress(0xFE - 2 * i));
        let hi = rom.read_8(PhysicalAddress(0xFF - 2 * i));
        first.push(MemWrite { addr: 0x8C0000E0 + 2 * i, value: (((hi as u16) << 8u16) | (lo as u16)) as u32, width: 2 });
        proof {
            assert(vector_writes(rom.bios@, rom.flash@).take(i as int + 1) =~= vector_writes(rom.bios@, rom.flash@).take(i as int).push(
                vector_writes(rom.bios@, rom.flash@)[i as int],
            ));
        }
        i = i + 1;
    }
    proof {
        assert(vector_writes(rom.bios@, rom.flash@).take(16) =~= vector_writes(rom.bios@, rom.flash@));
        assert(first@ =~= first_writes(ip_bin@, ref_ram@, rom.bios@, rom.flash@));
    }
    if !apply_list(bus, &first) {
        return false;
    }
    let ghost ram1 = bus.system_ram@;
    let ghost b1 = bus.view();
    let mut j: usize = 0x100;
    while j < 0x200000
        invariant
            0x100 <= j <= 0x200000,
            !(0x4000 < j < 0x8000),
            bus.intc == old(bus).intc,
            bus.view() == (BusView { ram: bus.system_ram@, ..b1 }),
            rom.bios@.len() >= 0x200000,
            bus.wf(),
            bus.system_ram@.len() == ram1.len(),
            forall|k: int| 0 <= k < ram1.len() ==> #[trigger] bus.system_ram@[k] == if (0x100 <= k < 0x4000 || 0x8000 <= k < 0x200000) && k < j {
                rom.bios@[k]
            } else {
                ram1[k]
            },
        decreases 0x200000 - j,
    {
        if j == 0x4000 {
            j = 0x8000;
        } else {
            bus.system_ram.set(j, rom.bios[j]);
            j = j + 1;
        }
    }
    proof {
        assert(bus.system_ram@ =~= bios_copied(ram1, rom.bios@));
    }
    let mut second: Vec<MemWrite> = Vec::new();
    let mut f: u32 = 0;
    while f < 8
        invariant
            f <= 8,
            rom.flash@.len() >= 0x1A05E,
            second@ == flash_writes(rom.bios@, rom.flash@).take(f as int),
        decreases 8 - f,
    {
        let b = rom.read_8(PhysicalAddress(0x0021A056 + f));
        second.push(MemWrite { addr: 0x8C000068 + f, value: b as u32, width: 1 });
        proof {
            assert(flash_writes(rom.bios@, rom.flash@).take(f as int + 1) =~= flash_writes(rom.bios@, rom.flash@).take(f as int).push(
                flash_writes(rom.bios@, rom.flash@)[f as int],
            ));
        }
        f = f + 1;
    }
    while f < 13
        invariant
            8 <= f <= 13,
            rom.flash@.len() >= 0x1A05E,
            second@ == flash_writes(rom.bios@, rom.flash@).take(f as int),
        decreases 13 - f,
    {
        let b = rom.read_8(PhysicalAddress(0x0021A000 + (f - 8)));
        second.push(MemWrite { addr: 0x8C000070 + (f - 8), value: b as u32, width: 1 });
        proof {
            assert(flash_writes(rom.bios@, rom.flash@).take(f as int + 1) =~= flash_writes(rom.bios@, rom.flash@).take(f as int).push(
                flash_writes(rom.bios@, rom.flash@)[f as int],
            ));
        }
        f = f + 1;
    }
    let patches: [MemWrite; 35] = [
        MemWrite { addr: 0x8C000075, value: 0x00, width: 1 },
        MemWrite { addr: 0x8C000076, value: 0x00, width: 1 },
        MemWrite { addr: 0x8C000077, value: 0x89, width: 1 },
        MemWrite { addr: 0x8C000078, value: 0xFC, width: 1 },
        MemWrite { addr: 0x8C000079, value: 0x5B, width: 1 },
        MemWrite { addr: 0x8C00007A, value: 0xFF, width: 1 },
        MemWrite { addr: 0x8C00007B, value: 0x01, width: 1 },
        MemWrite { addr: 0x8C00007C, value: 0x00, width: 1 },
        MemWrite { addr: 0x8C00007D, value: 0x00, width: 1 },
        MemWrite { addr: 0x8C00007E, value: 0x7D, width: 1 },
        MemWrite { addr: 0x8C00007F, value: 0x0A, width: 1 },
        MemWrite { addr: 0x8C000080, value: 0x62, width: 1 },
        MemWrite { addr: 0x8C000081, value: 0x61, width: 1 },
        MemWrite { addr: 0x8C000000, value: 0x00090009, width: 4 },
        MemWrite { addr: 0x8C000004, value: 0x001B0009, width: 4 },
        MemWrite { addr: 0x8C000008, value: 0x0009AFFD, width: 4 },
        MemWrite { addr: 0x8C00000C, value: 0, width: 2 },
        MemWrite { addr: 0x8C00000E, value: 0, width: 2 },
        MemWrite { addr: 0x8C000010, value: 0x00090009, width: 4 },
        MemWrite { addr: 0x8C000014, value: 0x0009002B, width: 4 },
        MemWrite { addr: 0x8C000018, value: 0x00090009, width: 4 },
        MemWrite { addr: 0x8C00001C, value: 0x0009000B, width: 4 },
        MemWrite { addr: 0x8C00002C, value: 0x16, width: 1 },
        MemWrite { addr: 0x8C000064, value: 0x8c008100, width: 4 },
        MemWrite { addr: 0x8C000090, value: 0, width: 2 },
        MemWrite { addr: 0x8C000092, value: 0xFF80, width: 2 },
        MemWrite { addr: 0x8C0000AC, value: 0xA05F7000, width: 4 },
        MemWrite { addr: 0x8C0000A8, value: 0xA0200000, width: 4 },
        MemWrite { addr: 0x8C0000A4, value: 0xA0100000, width: 4 },
        MemWrite { addr: 0x8C0000A0, value: 0x00000000, width: 4 },
        MemWrite { addr: 0x8C00002C, value: 0x00000000, width: 4 },
        MemWrite { addr: 0x8CFFFFF8, value: 0x8C000128, width: 4 },
        MemWrite { addr: 0xAC0090D8, value: 0x5113, width: 2 },
        MemWrite { addr: 0xAC00940A, value: 0x000B, width: 2 },
        MemWrite { addr: 0xAC00940C, value: 0x0009, width: 2 },
    ];
    proof {
        assert(patches@ =~= patch_writes());
    }
    let ghost before_patches = second@;
    let mut p: usize = 0;
    while p < 35
        invariant
            p <= 35,
            patches@ == patch_writes(),
            second@ == before_patches + patches@.take(p as int),
        decreases 35 - p,
    {
        second.push(patches[p]);
        proof {
            assert(patches@.take(p as int + 1) =~= patches@.take(p as int).push(patches@[p as int]));
        }
        p = p + 1;
    }
    proof {
        assert(flash_writes(rom.bios@, rom.flash@).take(13) =~= flash_writes(rom.bios@, rom.flash@));
        assert(patches@.take(35) =~= patches@);
        assert(second@ =~= flash_writes(rom.bios@, rom.flash@) + patch_writes());
    }
    apply_list(bus, &second)
}

} // verus!
