//! The AICA sound block: wave memory, channel and timer registers, the
//! real-time clock, and the ARM7 core that runs the sound program.
use crate::hw::extensions::{le_half, le_word};
use crate::hw::sh4::bus::PhysicalAddress;
use rtc::Rtc;
use vstd::prelude::*;

pub mod arm;
pub mod arm_bus;
pub mod rtc;

verus! {

/// The registers of one sound channel.
#[derive(Debug, Clone, Copy)]
pub struct ChannelRegisters {
    pub r: [u32; 18],
    pub inactive: [u32; 14],
}

/// A timer control register: an 8-bit count and a prescaler.
#[derive(Debug, Default, Clone, Copy, PartialEq, Eq, Structural)]
pub struct TimerControlRegister(pub u32);

impl TimerControlRegister {
    /// The count.
    pub fn value(&self) -> (r: u32)
        ensures
            r == self.0 & 0xFF,
    {
        self.0 & 0xFF
    }

    /// Sets the count, keeping the other bits.
    pub fn set_value(&mut self, value: u32)
        ensures
            final(self).0 == (old(self).0 & !0xFFu32) | (value & 0xFF),
    {
        self.0 = (self.0 & !0xFFu32) | (value & 0xFF);
    }

    /// The prescaler: two to the power of bits 8..11.
    pub fn prescale(&self) -> (r: u32)
        ensures
            r == pow2_small((self.0 >> 8u32) & 0b111),
    {
        let x = self.0;
        let v = (x >> 8u32) & 0b111;
        proof { assert(v <= 7) by (bit_vector) requires v == (x >> 8u32) & 0b111; }
        match v {
            0 => 1,
            1 => 2,
            2 => 4,
            3 => 8,
            4 => 16,
            5 => 32,
            6 => 64,
            _ => 128,
        }
    }
}

/// Two to the power of `n`, for `n` below 8.
pub open spec fn pow2_small(n: u32) -> u32 {
    if n == 0 { 1 } else if n == 1 { 2 } else if n == 2 { 4 } else if n == 3 { 8 } else if n == 4 { 16 }
    else if n == 5 { 32 } else if n == 6 { 64 } else { 128 }
}

/// The size of wave memory.
pub const WAVE_RAM_SIZE: usize = 0x7FFFFF;

/// Where the SH-4 sees wave memory.
pub const WAVE_RAM_BASE: u32 = 0x0080_0000;

/// The offset in wave memory of an SH-4 physical address, wrapping at the
/// size of wave memory.
pub open spec fn wave_offset(wave_len: nat, addr: u32) -> int {
    (addr - WAVE_RAM_BASE) % (wave_len as int)
}

/// Addresses at which a read of wave memory answers a fixed value that a
/// game waits for.
pub open spec fn wave_read_override(addr: u32) -> Option<u32> {
    if addr == 0x80005c {
        Some(0x01)
    } else if addr == 0x00800104 || addr == 0x008001C4 || addr == 0x00800164 || addr == 0x00800224
        || addr == 0x00800284 || addr == 0x00800288 {
        Some(0x0090)
    } else {
        None
    }
}

/// The AICA sound block.
pub struct Aica {
    pub wave_ram: Vec<u8>,
    pub rtc: Rtc,
    pub channels: [ChannelRegisters; 64],
    pub timers: [TimerControlRegister; 3],
    pub sound_cpu_interrupts_enabled: bool,
}

/// Whether `b` is sound block `a` after a write of `value` to the sound
/// register at `phys`: a channel register in the first 8 KiB (the key-on
/// word and the low sample address keep their low 16 bits), the sound CPU
/// interrupt enable, and nothing else.
pub open spec fn register_written(a: Aica, b: Aica, phys: u32, value: u32) -> bool {
    let addr = phys & 0x0000FFFF;
    &&& forall|c: int, i: int| 0 <= c < 64 && 0 <= i < 18 ==> #[trigger] b.channels[c].r[i]
        == if addr <= 0x1fff && c == addr / 128 && i == addr % 128 && (i == 0 || i == 4) {
            value & 0xffff
        } else {
            a.channels[c].r[i]
        }
    &&& forall|c: int| 0 <= c < 64 ==> #[trigger] b.channels[c].inactive == a.channels[c].inactive
    &&& b.sound_cpu_interrupts_enabled == if addr == 0x0000289C {
        value == 1
    } else {
        a.sound_cpu_interrupts_enabled
    }
    &&& b.wave_ram == a.wave_ram
    &&& b.timers == a.timers
    &&& b.rtc == a.rtc
}

impl Aica {
    /// A sound block with blank wave memory and registers, its clock set to
    /// `unix_seconds` (seconds since 1970).
    pub fn new(unix_seconds: u64) -> (r: Aica)
        ensures
            r.wave_ram@ == Seq::new(WAVE_RAM_SIZE as nat, |i: int| 0u8),
            r.rtc.timestamp == rtc::dreamcast_seconds(unix_seconds),
            forall|c: int, i: int| 0 <= c < 64 && 0 <= i < 18 ==> r.channels[c].r[i] == 0,
            forall|t: int| 0 <= t < 3 ==> r.timers[t].0 == 0,
            !r.sound_cpu_interrupts_enabled,
    {
        let zero = ChannelRegisters { r: [0; 18], inactive: [0; 14] };
        Aica {
            wave_ram: vec![0; WAVE_RAM_SIZE],
            rtc: Rtc::new(unix_seconds),
            channels: [zero; 64],
            timers: [TimerControlRegister(0); 3],
            sound_cpu_interrupts_enabled: false,
        }
    }

    /// A 32-bit read of wave memory by the SH-4.
    pub fn read_aica_wave_32(&self, physical_addr: PhysicalAddress) -> (r: u32)
        requires
            physical_addr.0 >= WAVE_RAM_BASE,
            self.wave_ram@.len() > 0,
            wave_offset(self.wave_ram@.len(), physical_addr.0) + 3 < self.wave_ram@.len(),
        ensures
            r == match wave_read_override(physical_addr.0) {
                Some(v) => v,
                None => le_word(self.wave_ram@, wave_offset(self.wave_ram@.len(), physical_addr.0)),
            },
    {
        let len = self.wave_ram.len();
        let addr = (physical_addr.0 as usize - 0x00800000) % len;
        let value = (self.wave_ram[addr] as u32) | ((self.wave_ram[addr + 1] as u32) << 8u32)
            | ((self.wave_ram[addr + 2] as u32) << 16u32) | ((self.wave_ram[addr + 3] as u32) << 24u32);
        let p = physical_addr.0;
        if p == 0x80005c {
            return 0x01;
        }
        if p == 0x00800104 || p == 0x008001C4 || p == 0x00800164 || p == 0x00800224 {
            return 0x0090;
        }
        if p == 0x00800284 || p == 0x00800288 {
            return 0x0090;
        }
        value
    }

    /// A 16-bit read of wave memory by the SH-4.
    pub fn read_aica_wave_16(&self, physical_addr: PhysicalAddress) -> (r: u16)
        requires
            wave_read_override(physical_addr.0) is None ==> {
                &&& physical_addr.0 >= WAVE_RAM_BASE
                &&& self.wave_ram@.len() > 0
                &&& wave_offset(self.wave_ram@.len(), physical_addr.0) + 1 < self.wave_ram@.len()
            },
        ensures
            r == match wave_read_override(physical_addr.0) {
                Some(v) => v as u16,
                None => le_half(self.wave_ram@, wave_offset(self.wave_ram@.len(), physical_addr.0)),
            },
    {
        let p = physical_addr.0;
        if p == 0x80005c {
            return 0x01;
        }
        if p == 0x00800104 || p == 0x008001C4 || p == 0x00800164 || p == 0x00800224 {
            return 0x0090;
        }
        if p == 0x00800284 || p == 0x00800288 {
            return 0x0090;
        }
        let len = self.wave_ram.len();
        let addr = (p as usize - 0x00800000) % len;
        (self.wave_ram[addr] as u16) | ((self.wave_ram[addr + 1] as u16) << 8u16)
    }

    /// A 16-bit write of wave memory by the SH-4, little-endian.
    pub fn write_aica_wave_16(&mut self, physical_addr: PhysicalAddress, value: u16)
        requires
            physical_addr.0 >= WAVE_RAM_BASE,
            old(self).wave_ram@.len() > 0,
            wave_offset(old(self).wave_ram@.len(), physical_addr.0) + 1 < old(self).wave_ram@.len(),
        ensures
            ({
                let a = wave_offset(old(self).wave_ram@.len(), physical_addr.0);
                final(self).wave_ram@ == old(self).wave_ram@.update(a, value as u8).update(a + 1, (value >> 8u16) as u8)
            }),
            final(self).channels == old(self).channels,
            final(self).timers == old(self).timers,
            final(self).rtc == old(self).rtc,
            final(self).sound_cpu_interrupts_enabled == old(self).sound_cpu_interrupts_enabled,
    {
        let len = self.wave_ram.len();
        let addr = (physical_addr.0 as usize - 0x00800000) % len;
        self.wave_ram.set(addr, value as u8);
        self.wave_ram.set(addr + 1, (value >> 8u16) as u8);
    }

    /// A 32-bit write of wave memory by the SH-4, little-endian.
    pub fn write_aica_wave_32(&mut self, physical_addr: PhysicalAddress, value: u32)
        requires
            physical_addr.0 >= WAVE_RAM_BASE,
            old(self).wave_ram@.len() > 0,
            wave_offset(old(self).wave_ram@.len(), physical_addr.0) + 3 < old(self).wave_ram@.len(),
        ensures
            ({
                let a = wave_offset(old(self).wave_ram@.len(), physical_addr.0);
                final(self).wave_ram@ == old(self).wave_ram@.update(a, value as u8).update(a + 1, (value >> 8u32) as u8)
                    .update(a + 2, (value >> 16u32) as u8).update(a + 3, (value >> 24u32) as u8)
            }),
            final(self).channels == old(self).channels,
            final(self).timers == old(self).timers,
            final(self).rtc == old(self).rtc,
            final(self).sound_cpu_interrupts_enabled == old(self).sound_cpu_interrupts_enabled,
    {
        let len = self.wave_ram.len();
        let addr = (physical_addr.0 as usize - 0x00800000) % len;
        self.wave_ram.set(addr, value as u8);
        self.wave_ram.set(addr + 1, (value >> 8u32) as u8);
        self.wave_ram.set(addr + 2, (value >> 16u32) as u8);
        self.wave_ram.set(addr + 3, (value >> 24u32) as u8);
    }

    /// A read of the sound registers: they read as zero.
    pub fn read_aica_register_32(&self, physical_addr: PhysicalAddress) -> (r: u32)
        ensures
            r == 0,
    {
        0
    }

    /// A write of a channel register: the key-on word and the low sample
    /// address keep their low 16 bits; the others are ignored.
    pub fn write_channel_register(&mut self, channel: usize, index: usize, value: u32)
        requires
            channel < 64,
        ensures
            forall|c: int, i: int| 0 <= c < 64 && 0 <= i < 18 ==> #[trigger] final(self).channels[c].r[i]
                == if c == channel && i == index && (index == 0 || index == 4) {
                    value & 0xffff
                } else {
                    old(self).channels[c].r[i]
                },
            forall|c: int| 0 <= c < 64 ==> #[trigger] final(self).channels[c].inactive == old(self).channels[c].inactive,
            final(self).wave_ram == old(self).wave_ram,
            final(self).timers == old(self).timers,
            final(self).rtc == old(self).rtc,
            final(self).sound_cpu_interrupts_enabled == old(self).sound_cpu_interrupts_enabled,
    {
        if index == 0 || index == 4 {
            let mut regs = self.channels[channel];
            regs.r[index] = value & 0xffff;
            self.channels[channel] = regs;
        }
    }

    /// Advances the sound block by one step: nothing to do.
    pub fn tick(&mut self)
        ensures
            *final(self) == *old(self),
    {
    }

    /// A write of a sound register: channel registers in the first 8 KiB,
    /// and the sound CPU interrupt enable.
    pub fn write_aica_register_32(&mut self, physical_addr: PhysicalAddress, value: u32)
        ensures
            register_written(*old(self), *final(self), physical_addr.0, value),
    {
        let addr = physical_addr.0 & 0x0000FFFF;
        if addr <= 0x00001fff {
            self.write_channel_register((addr / 128) as usize, (addr % 128) as usize, value);
        } else if addr == 0x0000289C {
            self.sound_cpu_interrupts_enabled = value == 1;
        }
    }
}

proof fn lemma_le_recombine(v: u32)
    by (bit_vector)
    ensures
        ((v as u8) as u32) | ((((v >> 8u32) as u8) as u32) << 8u32) | ((((v >> 16u32) as u8) as u32) << 16u32)
            | ((((v >> 24u32) as u8) as u32) << 24u32) == v,
{
}

/// A word the SH-4 writes to wave memory reads back as written, except at
/// the addresses whose reads answer a fixed value.
pub proof fn law_wave_write_read(mem: Seq<u8>, addr: u32, value: u32)
    requires
        addr >= WAVE_RAM_BASE,
        mem.len() > 0,
        wave_offset(mem.len(), addr) + 3 < mem.len(),
    ensures
        ({
            let a = wave_offset(mem.len(), addr);
            let m2 = mem.update(a, value as u8).update(a + 1, (value >> 8u32) as u8).update(a + 2, (value >> 16u32) as u8)
                .update(a + 3, (value >> 24u32) as u8);
            &&& m2.len() == mem.len()
            &&& wave_offset(m2.len(), addr) == a
            &&& le_word(m2, a) == value
        }),
{
    lemma_le_recombine(value);
}

} // verus!
