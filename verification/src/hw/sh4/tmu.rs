//! The timer unit: three down-counting channels.
use super::bus::PhysicalAddress;
use super::intc::InterruptKind;
use super::SH4EventData;
use crate::hw::extensions::{bit16, bit8, BitManipulation};
use crate::scheduler::{schedule_result, ScheduledEvent, Scheduler};
use vstd::prelude::*;

verus! {

#[derive(Copy, Clone, Debug, Eq, PartialEq, Structural)]
pub struct TmuRegisters {
    pub tocr: u8,
    pub tstr: u8,
    pub tcor0: u32,
    pub tcor1: u32,
    pub tcor2: u32,
    pub tcnt0: u32,
    pub tcnt1: u32,
    pub tcnt2: u32,
    pub tcr0: u16,
    pub tcr1: u16,
    pub tcr2: u16,
    pub channel_0_cycles: u64,
    pub channel_1_cycles: u64,
    pub channel_2_cycles: u64,
}

pub struct Tmu {
    pub registers: TmuRegisters,
}

/// The prescaler setting (TPSC, bits 0..3) is one the timer implements.
pub open spec fn valid_prescaler(tcr: u16) -> bool {
    tcr & 7 <= 4
}

/// Cycles per count for a prescaler setting: 4, 16, 64, 256 or 1024.
pub open spec fn timer_scale(tcr: u16) -> u64 {
    if tcr & 7 == 0 {
        4
    } else if tcr & 7 == 1 {
        16
    } else if tcr & 7 == 2 {
        64
    } else if tcr & 7 == 3 {
        256
    } else {
        1024
    }
}

/// The counter after `k` counts from `tcnt`, reloading from `tcor` when it
/// counts at zero, and whether it did so at least once.
pub open spec fn countdown(tcnt: u32, tcor: u32, k: nat) -> (u32, bool)
    decreases k,
{
    if k == 0 {
        (tcnt, false)
    } else {
        let (t, u) = countdown(tcnt, tcor, (k - 1) as nat);
        if t == 0 {
            (tcor, true)
        } else {
            ((t - 1) as u32, u)
        }
    }
}

/// One cycle of a running channel: the cycle count, the counter and whether
/// the counter underflowed.
pub open spec fn channel_tick(cycles: u64, scale: u64, tcnt: u32, tcor: u32) -> (u64, u32, bool) {
    let c = cycles + 1;
    let (t, u) = countdown(tcnt, tcor, (c / scale as int) as nat);
    ((c % scale as int) as u64, t, u)
}

/// The timer underflow interrupt request that channel 0 or 2 raises.
pub open spec fn underflow_event(kind: InterruptKind) -> ScheduledEvent {
    ScheduledEvent::SH4Event {
        deadline: 200,
        event_data: SH4EventData::RaiseIRL { irl_number: kind.index_spec() as usize },
    }
}

/// Runs one channel for one cycle.
fn run_channel(cycles: u64, scale: u64, tcnt: u32, tcor: u32) -> (r: (u64, u32, bool))
    requires
        cycles < u64::MAX,
        scale > 0,
    ensures
        r == channel_tick(cycles, scale, tcnt, tcor),
{
    let c1 = cycles + 1;
    let mut c = c1;
    let mut t = tcnt;
    let mut underflow = false;
    let ghost mut m: nat = 0;
    while c >= scale
        invariant
            scale > 0,
            c1 == cycles + 1,
            c1 == c + m * scale,
            (t, underflow) == countdown(tcnt, tcor, m),
        decreases c,
    {
        c = c - scale;
        if t == 0 {
            t = tcor;
            underflow = true;
        } else {
            t = t.wrapping_sub(1);
        }
        proof {
            assert((m + 1) * scale == m * scale + scale) by (nonlinear_arith);
            m = m + 1;
        }
    }
    proof {
        vstd::arithmetic::div_mod::lemma_fundamental_div_mod_converse(c1 as int, scale as int, m as int, c as int);
    }
    (c, t, underflow)
}

/// The timer registers after one cycle.
pub open spec fn tmu_tick_spec(r: TmuRegisters) -> TmuRegisters {
    let r0 = if bit8(r.tstr, 0) {
        let (c, t, u) = channel_tick(r.channel_0_cycles, timer_scale(r.tcr0), r.tcnt0, r.tcor0);
        TmuRegisters { channel_0_cycles: c, tcnt0: t, tcr0: if u { r.tcr0 | 0x100 } else { r.tcr0 }, ..r }
    } else {
        r
    };
    let r1 = if bit8(r.tstr, 1) {
        let (c, t, u) = channel_tick(r0.channel_1_cycles, timer_scale(r0.tcr1), r0.tcnt1, r0.tcor1);
        TmuRegisters { channel_1_cycles: c, tcnt1: t, tcr1: if u { r0.tcr1 | 0x100 } else { r0.tcr1 }, ..r0 }
    } else {
        r0
    };
    if bit8(r.tstr, 2) {
        let (c, t, u) = channel_tick(r1.channel_2_cycles, timer_scale(r1.tcr2), r1.tcnt2, r1.tcor2);
        TmuRegisters { channel_2_cycles: c, tcnt2: t, tcr2: if u { r1.tcr2 | 0x100 } else { r1.tcr2 }, ..r1 }
    } else {
        r1
    }
}

/// Channel `ch` runs and underflows during this cycle.
pub open spec fn channel_underflows(r: TmuRegisters, ch: nat) -> bool {
    if ch == 0 {
        bit8(r.tstr, 0) && channel_tick(r.channel_0_cycles, timer_scale(r.tcr0), r.tcnt0, r.tcor0).2
    } else if ch == 1 {
        bit8(r.tstr, 1) && channel_tick(r.channel_1_cycles, timer_scale(r.tcr1), r.tcnt1, r.tcor1).2
    } else {
        bit8(r.tstr, 2) && channel_tick(r.channel_2_cycles, timer_scale(r.tcr2), r.tcnt2, r.tcor2).2
    }
}

/// The 32-bit registers that accept writes.
pub open spec fn tmu_write32_known(addr: u32) -> bool {
    addr == 0x1fd80008 || addr == 0x1fd80014 || addr == 0x1fd80018 || addr == 0x1fd80020 || addr
        == 0x1fd80024 || addr == 0x1fd8000c
}

/// The registers after a 32-bit write of `value` to the known register `addr`.
pub open spec fn tmu_write32_spec(r: TmuRegisters, addr: u32, value: u32) -> TmuRegisters {
    match addr {
        0x1fd80008 => TmuRegisters { tcor0: value, ..r },
        0x1fd80014 => TmuRegisters { tcor1: value, ..r },
        0x1fd80018 => TmuRegisters { tcnt1: value, ..r },
        0x1fd80020 => TmuRegisters { tcor2: value, ..r },
        0x1fd80024 => TmuRegisters { tcnt2: value, ..r },
        _ => TmuRegisters { tcnt0: value, ..r },
    }
}

/// The registers after a 16-bit write of `value` to a control register.
pub open spec fn tmu_write16_spec(r: TmuRegisters, addr: u32, value: u16) -> TmuRegisters {
    match addr {
        0x1fd80010 => TmuRegisters { tcr0: value, ..r },
        0x1fd8001c => TmuRegisters { tcr1: value, ..r },
        _ => TmuRegisters { tcr2: value, ..r },
    }
}

/// The registers after an 8-bit write of `value` to TOCR or TSTR.
pub open spec fn tmu_write8_spec(r: TmuRegisters, addr: u32, value: u8) -> TmuRegisters {
    match addr {
        0x1fd80000 => TmuRegisters { tocr: value, ..r },
        _ => TmuRegisters { tstr: value, ..r },
    }
}

impl Tmu {
    pub fn new() -> (r: Self)
        ensures
            r.registers == (TmuRegisters {
                tocr: 0,
                tstr: 0,
                tcor0: 0,
                tcor1: 0,
                tcor2: 0,
                tcnt0: 0,
                tcnt1: 0,
                tcnt2: 0,
                tcr0: 0x2,
                tcr1: 0x100,
                tcr2: 0,
                channel_0_cycles: 0,
                channel_1_cycles: 0,
                channel_2_cycles: 0,
            }),
    {
        Self {
            registers: TmuRegisters {
                tocr: 0,
                tstr: 0,
                tcor0: 0,
                tcor1: 0,
                tcor2: 0,
                tcnt0: 0,
                tcnt1: 0,
                tcnt2: 0,
                tcr0: 0x2,
                tcr1: 0x100,
                tcr2: 0,
                channel_0_cycles: 0,
                channel_1_cycles: 0,
                channel_2_cycles: 0,
            },
        }
    }

    /// Advances the running channels by one cycle. A channel counts down
    /// once per prescaler period; at zero it reloads from its constant
    /// register and flags the underflow (TCR bit 8); with underflow
    /// interrupts enabled (TCR bit 5) channels 0 and 2 raise TUNI0 and TUNI2
    /// 200 cycles later.
    pub fn tick(&mut self, scheduler: &mut Scheduler)
        requires
            bit8(old(self).registers.tstr, 0) ==> valid_prescaler(old(self).registers.tcr0)
                && old(self).registers.channel_0_cycles < u64::MAX,
            bit8(old(self).registers.tstr, 1) ==> valid_prescaler(old(self).registers.tcr1)
                && old(self).registers.channel_1_cycles < u64::MAX,
            bit8(old(self).registers.tstr, 2) ==> valid_prescaler(old(self).registers.tcr2)
                && old(self).registers.channel_2_cycles < u64::MAX,
            !(channel_underflows(old(self).registers, 1) && bit16(old(self).registers.tcr1, 5)),
            old(scheduler).time() + 200 <= u64::MAX,
        ensures
            final(self).registers == tmu_tick_spec(old(self).registers),
            final(scheduler).time() == old(scheduler).time(),
            ({
                let s0 = old(scheduler)@;
                let s1 = if channel_underflows(old(self).registers, 0) && bit16(old(self).registers.tcr0, 5) {
                    schedule_result(s0, old(scheduler).time(), underflow_event(InterruptKind::TUNI0))
                } else {
                    s0
                };
                final(scheduler)@ == if channel_underflows(old(self).registers, 2) && bit16(old(self).registers.tcr2, 5) {
                    schedule_result(s1, old(scheduler).time(), underflow_event(InterruptKind::TUNI2))
                } else {
                    s1
                }
            }),
    {
        proof {
            assert(1u16 << 8usize == 0x100u16) by (bit_vector);
        }
        if self.registers.tstr.check_bit(0) {
            let scale = Self::scale_of(self.registers.tcr0);
            let (c, t, u) = run_channel(self.registers.channel_0_cycles, scale, self.registers.tcnt0, self.registers.tcor0);
            self.registers.channel_0_cycles = c;
            self.registers.tcnt0 = t;
            if u {
                self.registers.tcr0 = self.registers.tcr0.set_bit(8);
                if self.registers.tcr0.check_bit(5) {
                    scheduler.schedule(ScheduledEvent::SH4Event {
                        deadline: 200,
                        event_data: SH4EventData::RaiseIRL { irl_number: InterruptKind::TUNI0.index() },
                    });
                }
            }
        }
        if self.registers.tstr.check_bit(1) {
            let scale = Self::scale_of(self.registers.tcr1);
            let (c, t, u) = run_channel(self.registers.channel_1_cycles, scale, self.registers.tcnt1, self.registers.tcor1);
            self.registers.channel_1_cycles = c;
            self.registers.tcnt1 = t;
            if u {
                self.registers.tcr1 = self.registers.tcr1.set_bit(8);
            }
        }
        if self.registers.tstr.check_bit(2) {
            let scale = Self::scale_of(self.registers.tcr2);
            let (c, t, u) = run_channel(self.registers.channel_2_cycles, scale, self.registers.tcnt2, self.registers.tcor2);
            self.registers.channel_2_cycles = c;
            self.registers.tcnt2 = t;
            if u {
                self.registers.tcr2 = self.registers.tcr2.set_bit(8);
                if self.registers.tcr2.check_bit(5) {
                    scheduler.schedule(ScheduledEvent::SH4Event {
                        deadline: 200,
                        event_data: SH4EventData::RaiseIRL { irl_number: InterruptKind::TUNI2.index() },
                    });
                }
            }
        }
    }

    fn scale_of(tcr: u16) -> (r: u64)
        requires
            valid_prescaler(tcr),
        ensures
            r == timer_scale(tcr),
            r > 0,
    {
        match tcr & 0x7 {
            0 => 4,
            1 => 16,
            2 => 64,
            3 => 256,
            _ => 1024,
        }
    }

    pub fn write_32(&mut self, addr: PhysicalAddress, value: u32)
        requires
            tmu_write32_known(addr.0),
        ensures
            final(self).registers == tmu_write32_spec(old(self).registers, addr.0, value),
    {
        match addr.0 {
            0x1fd80008 => self.registers.tcor0 = value,
            0x1fd80014 => self.registers.tcor1 = value,
            0x1fd80018 => self.registers.tcnt1 = value,
            0x1fd80020 => self.registers.tcor2 = value,
            0x1fd80024 => self.registers.tcnt2 = value,
            _ => self.registers.tcnt0 = value,
        }
    }

    pub fn write_16(&mut self, addr: PhysicalAddress, value: u16)
        requires
            addr.0 == 0x1fd80010 || addr.0 == 0x1fd8001c || addr.0 == 0x1fd80028,
        ensures
            final(self).registers == tmu_write16_spec(old(self).registers, addr.0, value),
    {
        match addr.0 {
            0x1fd80010 => self.registers.tcr0 = value,
            0x1fd8001c => self.registers.tcr1 = value,
            _ => self.registers.tcr2 = value,
        }
    }

    pub fn write_8(&mut self, addr: PhysicalAddress, value: u8)
        requires
            addr.0 == 0x1fd80000 || addr.0 == 0x1fd80004,
        ensures
            final(self).registers == tmu_write8_spec(old(self).registers, addr.0, value),
    {
        match addr.0 {
            0x1fd80000 => self.registers.tocr = value,
            _ => self.registers.tstr = value,
        }
    }

    pub fn read_32(&self, addr: PhysicalAddress) -> (r: u32)
        requires
            addr.0 == 0x1fd8000c || addr.0 == 0x1fd80024,
        ensures
            addr.0 == 0x1fd8000c ==> r == self.registers.tcnt0,
            addr.0 == 0x1fd80024 ==> r == self.registers.tcnt2,
    {
        match addr.0 {
            0x1fd8000c => self.registers.tcnt0,
            _ => self.registers.tcnt2,
        }
    }

    pub fn read_16(&self, addr: PhysicalAddress) -> (r: u16)
        requires
            addr.0 == 0x1fd80010 || addr.0 == 0x1fd8001c || addr.0 == 0x1fd80028,
        ensures
            addr.0 == 0x1fd80010 ==> r == self.registers.tcr0,
            addr.0 == 0x1fd8001c ==> r == self.registers.tcr1,
            addr.0 == 0x1fd80028 ==> r == self.registers.tcr2,
    {
        match addr.0 {
            0x1fd80010 => self.registers.tcr0,
            0x1fd8001c => self.registers.tcr1,
            _ => self.registers.tcr2,
        }
    }

    pub fn read_8(&self, addr: PhysicalAddress) -> (r: u8)
        requires
            addr.0 == 0x1fd80004,
        ensures
            r == self.registers.tstr,
    {
        self.registers.tstr
    }
}

} // verus!
