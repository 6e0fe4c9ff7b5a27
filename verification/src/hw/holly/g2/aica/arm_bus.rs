//! The ARM7's view of memory: wave memory below 8 MiB, the sound
//! registers above.
use super::{register_written, Aica};
use crate::hw::extensions::{le_half, le_word};
use crate::hw::sh4::bus::PhysicalAddress;
use vstd::prelude::*;

verus! {

/// The ARM7's bus, borrowing the sound block for one stretch of execution.
pub struct ArmBus<'a> {
    pub aica: &'a mut Aica,
}

/// Wave memory addresses seen by the ARM7 wrap at 2 MiB.
pub const ARM_ADDR_MASK: u32 = 0x1FFFFF;

/// Addresses from here on are sound registers.
pub const EXTERNAL_THRESHOLD: u32 = 0x800000;

/// Wave memory must hold at least the ARM7's 2 MiB window and three bytes
/// past it.
pub open spec fn arm_memory_ok(mem: Seq<u8>) -> bool {
    mem.len() > 0x200002
}

/// The little-endian word at ARM7 address `addr` in wave memory.
pub open spec fn arm_word(mem: Seq<u8>, addr: u32) -> u32 {
    le_word(mem, (addr & ARM_ADDR_MASK) as int)
}

/// The little-endian half-word at ARM7 address `addr` in wave memory.
pub open spec fn arm_half(mem: Seq<u8>, addr: u32) -> u16 {
    le_half(mem, (addr & ARM_ADDR_MASK) as int)
}

/// Wave memory after a little-endian word store at ARM7 address `addr`.
pub open spec fn store_word(mem: Seq<u8>, addr: u32, value: u32) -> Seq<u8> {
    let b = (addr & ARM_ADDR_MASK) as int;
    mem.update(b, value as u8).update(b + 1, (value >> 8u32) as u8).update(b + 2, (value >> 16u32) as u8).update(
        b + 3,
        (value >> 24u32) as u8,
    )
}

/// Wave memory after a little-endian half-word store at ARM7 address `addr`.
pub open spec fn store_half(mem: Seq<u8>, addr: u32, value: u16) -> Seq<u8> {
    let b = (addr & ARM_ADDR_MASK) as int;
    mem.update(b, value as u8).update(b + 1, (value >> 8u16) as u8)
}

/// The two sound blocks differ at most in wave memory, of the same length.
pub open spec fn same_but_memory(a: Aica, b: Aica) -> bool {
    &&& b.wave_ram@.len() == a.wave_ram@.len()
    &&& b.channels == a.channels
    &&& b.timers == a.timers
    &&& b.rtc == a.rtc
    &&& b.sound_cpu_interrupts_enabled == a.sound_cpu_interrupts_enabled
}

/// Whether sound block `b` is `a` after a 32-bit store of `value` at ARM7
/// address `addr`: into wave memory up to and including the threshold,
/// else to a sound register.
pub open spec fn word_stored(a: Aica, b: Aica, addr: u32, value: u32) -> bool {
    if addr <= EXTERNAL_THRESHOLD {
        b.wave_ram@ == store_word(a.wave_ram@, addr, value) && same_but_memory(a, b)
    } else {
        register_written(a, b, addr, value)
    }
}

/// Whether sound block `b` is `a` after a 16-bit store (ignored above the
/// threshold).
pub open spec fn half_stored(a: Aica, b: Aica, addr: u32, value: u16) -> bool {
    &&& b.wave_ram@ == if addr <= EXTERNAL_THRESHOLD { store_half(a.wave_ram@, addr, value) } else { a.wave_ram@ }
    &&& same_but_memory(a, b)
}

/// Whether sound block `b` is `a` after an 8-bit store (ignored above the
/// threshold).
pub open spec fn byte_stored(a: Aica, b: Aica, addr: u32, value: u8) -> bool {
    &&& b.wave_ram@ == if addr <= EXTERNAL_THRESHOLD {
        a.wave_ram@.update((addr & ARM_ADDR_MASK) as int, value)
    } else {
        a.wave_ram@
    }
    &&& same_but_memory(a, b)
}

/// The value of a 32-bit read at ARM7 address `addr`.
pub open spec fn read_word(mem: Seq<u8>, addr: u32) -> u32 {
    if addr < EXTERNAL_THRESHOLD { arm_word(mem, addr) } else { 0 }
}

/// The value of an 8-bit read at ARM7 address `addr`.
pub open spec fn read_byte(mem: Seq<u8>, addr: u32) -> u8 {
    if addr <= EXTERNAL_THRESHOLD { mem[(addr & ARM_ADDR_MASK) as int] } else { 0u8 }
}

proof fn lemma_mask_bound(addr: u32)
    by (bit_vector)
    ensures
        addr & ARM_ADDR_MASK <= 0x1FFFFF,
{
}

impl<'a> ArmBus<'a> {
    /// The sound block behind the bus.
    pub open spec fn device(&self) -> Aica {
        *self.aica
    }

    /// Wave memory.
    pub open spec fn memory(&self) -> Seq<u8> {
        self.aica.wave_ram@
    }

    /// A 32-bit read: wave memory, or a sound register (which reads as zero).
    pub fn read_32(&self, physical_addr: u32) -> (r: u32)
        requires
            arm_memory_ok(self.memory()),
        ensures
            r == read_word(self.memory(), physical_addr),
    {
        if physical_addr < EXTERNAL_THRESHOLD {
            self.fetch_32(physical_addr)
        } else {
            self.aica.read_aica_register_32(PhysicalAddress(physical_addr))
        }
    }

    /// An instruction fetch: always from wave memory.
    pub fn fetch_32(&self, physical_addr: u32) -> (r: u32)
        requires
            arm_memory_ok(self.memory()),
        ensures
            r == arm_word(self.memory(), physical_addr),
    {
        proof { lemma_mask_bound(physical_addr); }
        let b = (physical_addr & ARM_ADDR_MASK) as usize;
        (self.aica.wave_ram[b] as u32) | ((self.aica.wave_ram[b + 1] as u32) << 8u32)
            | ((self.aica.wave_ram[b + 2] as u32) << 16u32) | ((self.aica.wave_ram[b + 3] as u32) << 24u32)
    }

    /// A 16-bit read of wave memory (the sound registers cannot be read so).
    pub fn read_16(&self, physical_addr: u32) -> (r: u16)
        requires
            arm_memory_ok(self.memory()),
            physical_addr < EXTERNAL_THRESHOLD,
        ensures
            r == arm_half(self.memory(), physical_addr),
    {
        proof { lemma_mask_bound(physical_addr); }
        let b = (physical_addr & ARM_ADDR_MASK) as usize;
        (self.aica.wave_ram[b] as u16) | ((self.aica.wave_ram[b + 1] as u16) << 8u16)
    }

    /// An 8-bit read: wave memory up to and including the threshold, else
    /// the low byte of a sound register.
    pub fn read_8(&self, physical_addr: u32) -> (r: u8)
        requires
            arm_memory_ok(self.memory()),
        ensures
            r == read_byte(self.memory(), physical_addr),
    {
        if physical_addr <= EXTERNAL_THRESHOLD {
            proof { lemma_mask_bound(physical_addr); }
            self.aica.wave_ram[(physical_addr & ARM_ADDR_MASK) as usize]
        } else {
            self.aica.read_aica_register_32(PhysicalAddress(physical_addr)) as u8
        }
    }

    /// A 32-bit write: little-endian into wave memory up to and including
    /// the threshold (never at address 0x20), else a sound register.
    pub fn write_32(&mut self, physical_addr: u32, value: u32)
        requires
            arm_memory_ok(old(self).memory()),
            physical_addr != 0x20,
        ensures
            physical_addr <= EXTERNAL_THRESHOLD ==> {
                &&& final(self).memory() == store_word(old(self).memory(), physical_addr, value)
                &&& same_but_memory(old(self).device(), final(self).device())
            },
            physical_addr > EXTERNAL_THRESHOLD ==> register_written(old(self).device(), final(self).device(), physical_addr, value),
            word_stored(old(self).device(), final(self).device(), physical_addr, value),
    {
        if physical_addr <= EXTERNAL_THRESHOLD {
            proof { lemma_mask_bound(physical_addr); }
            let b = (physical_addr & ARM_ADDR_MASK) as usize;
            self.aica.wave_ram.set(b, value as u8);
            self.aica.wave_ram.set(b + 1, (value >> 8u32) as u8);
            self.aica.wave_ram.set(b + 2, (value >> 16u32) as u8);
            self.aica.wave_ram.set(b + 3, (value >> 24u32) as u8);
        } else {
            self.aica.write_aica_register_32(PhysicalAddress(physical_addr), value);
        }
    }

    /// A 16-bit write: little-endian into wave memory up to and including
    /// the threshold; ignored above it.
    pub fn write_16(&mut self, physical_addr: u32, value: u16)
        requires
            arm_memory_ok(old(self).memory()),
        ensures
            physical_addr <= EXTERNAL_THRESHOLD ==> final(self).memory() == store_half(old(self).memory(), physical_addr, value),
            physical_addr > EXTERNAL_THRESHOLD ==> final(self).memory() == old(self).memory(),
            same_but_memory(old(self).device(), final(self).device()),
            half_stored(old(self).device(), final(self).device(), physical_addr, value),
    {
        if physical_addr <= EXTERNAL_THRESHOLD {
            proof { lemma_mask_bound(physical_addr); }
            let b = (physical_addr & ARM_ADDR_MASK) as usize;
            self.aica.wave_ram.set(b, value as u8);
            self.aica.wave_ram.set(b + 1, (value >> 8u16) as u8);
        }
    }

    /// An 8-bit write: into wave memory up to and including the threshold;
    /// ignored above it.
    pub fn write_8(&mut self, physical_addr: u32, value: u8)
        requires
            arm_memory_ok(old(self).memory()),
        ensures
            physical_addr <= EXTERNAL_THRESHOLD ==> final(self).memory() == old(self).memory().update(
                (physical_addr & ARM_ADDR_MASK) as int,
                value,
            ),
            physical_addr > EXTERNAL_THRESHOLD ==> final(self).memory() == old(self).memory(),
            same_but_memory(old(self).device(), final(self).device()),
            byte_stored(old(self).device(), final(self).device(), physical_addr, value),
    {
        if physical_addr <= EXTERNAL_THRESHOLD {
            proof { lemma_mask_bound(physical_addr); }
            self.aica.wave_ram.set((physical_addr & ARM_ADDR_MASK) as usize, value);
        }
    }
}

proof fn lemma_le_recombine(v: u32)
    by (bit_vector)
    ensures
        ((v as u8) as u32) | ((((v >> 8u32) as u8) as u32) << 8u32) | ((((v >> 16u32) as u8) as u32) << 16u32)
            | ((((v >> 24u32) as u8) as u32) << 24u32) == v,
{
}

proof fn lemma_le_recombine16(v: u16)
    by (bit_vector)
    ensures
        ((v as u8) as u16) | ((((v >> 8u16) as u8) as u16) << 8u16) == v,
{
}

/// A word the ARM7 stores in wave memory reads back as stored.
pub proof fn law_word_store_read(mem: Seq<u8>, addr: u32, value: u32)
    requires
        arm_memory_ok(mem),
        addr < EXTERNAL_THRESHOLD,
    ensures
        read_word(store_word(mem, addr, value), addr) == value,
        store_word(mem, addr, value).len() == mem.len(),
{
    lemma_mask_bound(addr);
    lemma_le_recombine(value);
}

/// A half-word the ARM7 stores in wave memory reads back as stored.
pub proof fn law_half_store_read(mem: Seq<u8>, addr: u32, value: u16)
    requires
        arm_memory_ok(mem),
        addr < EXTERNAL_THRESHOLD,
    ensures
        arm_half(store_half(mem, addr, value), addr) == value,
        store_half(mem, addr, value).len() == mem.len(),
{
    lemma_mask_bound(addr);
    lemma_le_recombine16(value);
}

/// A byte the ARM7 stores in wave memory reads back as stored.
pub proof fn law_byte_store_read(mem: Seq<u8>, addr: u32, value: u8)
    requires
        arm_memory_ok(mem),
        addr <= EXTERNAL_THRESHOLD,
    ensures
        read_byte(mem.update((addr & ARM_ADDR_MASK) as int, value), addr) == value,
{
    lemma_mask_bound(addr);
}

} // verus!
