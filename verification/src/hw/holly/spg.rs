//! The sync pulse generator: scanline timing, the vertical blank, and the
//! interrupts raised at given scanlines.
use crate::hw::holly::HollyEventData;
use crate::scheduler::{schedule_result, ScheduledEvent, Scheduler};
use vstd::prelude::*;

verus! {

#[derive(Clone, Copy, Debug, Eq, PartialEq, Structural)]
pub enum SpgEventData {
    Sync,
}

/// The SPG registers that the timing reads.
#[derive(Clone, Copy, Debug, Eq, PartialEq, Structural)]
pub struct SpgRegisters {
    pub vblank: u32,
    pub hblank: u32,
    pub width: u32,
    pub load: u32,
    pub vblank_int: u32,
}

/// The sync pulse generator.
pub struct Spg {
    pub registers: SpgRegisters,
    pub in_vblank: bool,
    pub cycles_this_scanline: u64,
    pub current_scanline: u64,
}

/// The SH-4 clock, in cycles per second.
pub const SH4_CLOCK: u64 = 200_000_000;

/// The video pixel clock at full rate, in pixels per second.
pub const PIXEL_CLOCK: u64 = 27_000_000;

/// SH-4 cycles per scanline: the line length (the low ten bits of the load
/// register, plus one) in pixel clocks, at full rate when bit 23 of
/// FB_R_CTRL is set and at half rate otherwise.
pub open spec fn cycles_per_scanline(load: u32, r_ctrl: u32) -> u64 {
    let vclk: u64 = if (r_ctrl >> 23u32) & 1 == 1 { 1 } else { 2 };
    (SH4_CLOCK as int * ((load & 0x3FF) as int + 1) / ((PIXEL_CLOCK / vclk) as int)) as u64
}

/// The low ten bits of a register.
pub open spec fn low10(v: u32) -> u64 {
    (v & 0x3FF) as u64
}

/// Bits 16..26 of a register.
pub open spec fn high10(v: u32) -> u64 {
    ((v & 0x3FF0000) >> 16u32) as u64
}

/// The normal interrupt that SPG raises at once.
pub open spec fn raise_now(istnrm: u32) -> ScheduledEvent {
    ScheduledEvent::HollyEvent { deadline: 0, event_data: HollyEventData::RaiseInterruptNormal { istnrm } }
}

/// The events scheduled when the beam enters `line`.
pub open spec fn line_events(regs: SpgRegisters, line: u64) -> Seq<ScheduledEvent> {
    let first: Seq<ScheduledEvent> = if line == 0 { seq![raise_now(0x20)] } else { seq![] };
    let vin: Seq<ScheduledEvent> = if low10(regs.vblank_int) == line {
        seq![raise_now(0x08), ScheduledEvent::HollyEvent { deadline: 0, event_data: HollyEventData::VBlank }]
    } else {
        seq![]
    };
    let vout: Seq<ScheduledEvent> = if high10(regs.vblank_int) == line { seq![raise_now(0x10)] } else { seq![] };
    first + vin + vout
}

/// The scanline after `line`: back to 0 past the last line of the frame.
pub open spec fn next_line(regs: SpgRegisters, line: u64) -> u64 {
    if line + 1 > high10(regs.load) { 0 } else { (line + 1) as u64 }
}

/// Whether the beam is in the vertical blank after entering `line`.
pub open spec fn vblank_after(regs: SpgRegisters, line: u64, in_vblank: bool) -> bool {
    if high10(regs.vblank) == line {
        false
    } else if low10(regs.vblank) == line {
        true
    } else {
        in_vblank
    }
}

/// The scanline, the vertical blank flag, and the events scheduled, after
/// the beam has moved `n` lines on from `line`.
pub open spec fn advance_lines(regs: SpgRegisters, line: u64, in_vblank: bool, n: nat) -> (u64, bool, Seq<ScheduledEvent>)
    decreases n,
{
    if n == 0 {
        (line, in_vblank, seq![])
    } else {
        let (l, v, evs) = advance_lines(regs, line, in_vblank, (n - 1) as nat);
        let l2 = next_line(regs, l);
        (l2, vblank_after(regs, l2, v), evs + line_events(regs, l2))
    }
}

/// The pending events after scheduling `evs` in order at cycle `now`.
pub open spec fn schedule_all(s: Seq<crate::scheduler::SchedulerEntry>, now: u64, evs: Seq<ScheduledEvent>) -> Seq<crate::scheduler::SchedulerEntry>
    decreases evs.len(),
{
    if evs.len() == 0 {
        s
    } else {
        schedule_result(schedule_all(s, now, evs.drop_last()), now, evs.last())
    }
}

/// Whether the sync event can be handled on `spg` with the scheduler at
/// `now`: the counters and the wait for the next event fit 64 bits, and the
/// event is not later than that wait.
pub open spec fn sync_allowed(spg: Spg, now: u64, r_ctrl: u32, target: u64, overrun: u64) -> bool {
    &&& spg.cycles_this_scanline + target <= u64::MAX
    &&& spg.current_scanline < u64::MAX
    &&& now + 0x7FFF_FFFF <= u64::MAX
    &&& ({
        let cps = cycles_per_scanline(spg.registers.load, r_ctrl);
        let n = ((spg.cycles_this_scanline + target) / cps as int) as nat;
        let line = advance_lines(spg.registers, spg.current_scanline, spg.in_vblank, n).0;
        let wait = (next_active_line(spg.registers, line) - line) * cps;
        wait <= u64::MAX && overrun <= wait
    })
}

/// Whether `b` and the entries `sb` are what the sync event makes of `a`
/// and `sa` at `now`: the beam moves on by the scanlines the cycles make up,
/// the interrupts of the lines entered are scheduled, and then the next
/// sync event.
pub open spec fn sync_done(
    a: Spg,
    b: Spg,
    sa: Seq<crate::scheduler::SchedulerEntry>,
    sb: Seq<crate::scheduler::SchedulerEntry>,
    now: u64,
    r_ctrl: u32,
    target: u64,
    overrun: u64,
) -> bool {
    let regs = a.registers;
    let cps = cycles_per_scanline(regs.load, r_ctrl);
    let total = a.cycles_this_scanline + target;
    let n = (total / cps as int) as nat;
    let (line, vblank, evs) = advance_lines(regs, a.current_scanline, a.in_vblank, n);
    &&& b.registers == regs
    &&& b.cycles_this_scanline == total % (cps as int)
    &&& b.current_scanline == line
    &&& b.in_vblank == vblank
    &&& sb == schedule_result(schedule_all(sa, now, evs), now, sync_event(sync_delay(regs, line, cps, overrun)))
}

/// The first scanline after `line` at which something happens: an interrupt
/// line, the start or end of the blank, or the end of the frame.
pub open spec fn next_active_line(regs: SpgRegisters, line: u64) -> int {
    let min_scanline = line + 1;
    let vcount = high10(regs.load);
    let a = vcount as int;
    let a = if min_scanline < low10(regs.vblank_int) && low10(regs.vblank_int) < a { low10(regs.vblank_int) as int } else { a };
    let a = if min_scanline < high10(regs.vblank_int) && high10(regs.vblank_int) < a { high10(regs.vblank_int) as int } else { a };
    let a = if min_scanline < low10(regs.vblank) && low10(regs.vblank) < a { low10(regs.vblank) as int } else { a };
    let a = if min_scanline < high10(regs.vblank) && high10(regs.vblank) < a { high10(regs.vblank) as int } else { a };
    if a < min_scanline { min_scanline } else { a }
}

/// The delay, in cycles, of the next sync event: the cycles to the next
/// active line less the overrun, read as a signed 32-bit number, and no
/// less than zero.
pub open spec fn sync_delay(regs: SpgRegisters, line: u64, cps: u64, overrun: u64) -> u64 {
    let d = ((next_active_line(regs, line) - line) * cps - overrun) as i32;
    if d > 0 { d as u64 } else { 0 }
}

/// The sync event `delay` cycles on.
pub open spec fn sync_event(delay: u64) -> ScheduledEvent {
    ScheduledEvent::HollyEvent { deadline: delay, event_data: HollyEventData::SpgEvent(SpgEventData::Sync) }
}

/// Scheduling `a` and then `b` is scheduling `a + b`.
pub proof fn lemma_schedule_all_append(s: Seq<crate::scheduler::SchedulerEntry>, now: u64, a: Seq<ScheduledEvent>, b: Seq<ScheduledEvent>)
    ensures
        schedule_all(schedule_all(s, now, a), now, b) == schedule_all(s, now, a + b),
    decreases b.len(),
{
    if b.len() == 0 {
        assert(a + b =~= a);
    } else {
        lemma_schedule_all_append(s, now, a, b.drop_last());
        assert((a + b).drop_last() =~= a + b.drop_last());
        assert((a + b).last() == b.last());
    }
}

proof fn lemma_field_bounds(v: u32)
    by (bit_vector)
    ensures
        v & 0x3FF <= 0x3FF,
        (v & 0x3FF0000) >> 16u32 <= 0x3FF,
{
}

impl Spg {
    pub fn new() -> (r: Self)
        ensures
            r.registers == (SpgRegisters {
                vblank: 0x01500104,
                vblank_int: 0x01500104,
                hblank: 0x007E0345,
                width: 0x03f1933f,
                load: 0x01060359,
            }),
            !r.in_vblank,
            r.cycles_this_scanline == 0,
            r.current_scanline == 0,
    {
        Self {
            in_vblank: false,
            cycles_this_scanline: 0,
            current_scanline: 0,
            registers: SpgRegisters {
                vblank: 0x01500104,
                vblank_int: 0x01500104,
                hblank: 0x007E0345,
                width: 0x03f1933f,
                load: 0x01060359,
            },
        }
    }

    /// The cycles to the start and to the end of the vertical blank, and the
    /// cycles per scanline.
    pub fn recalc_freq(&mut self, r_ctrl: u32) -> (r: (u64, u64, u64))
        ensures
            r.2 == cycles_per_scanline(old(self).registers.load, r_ctrl),
            r.0 == low10(old(self).registers.vblank) * r.2,
            r.1 == r.0 + high10(old(self).registers.vblank) * r.2,
            *final(self) == *old(self),
            1 <= r.2 <= 16_000,
    {
        let vclk: u64 = if (r_ctrl >> 23u32) & 1 == 1 { 1 } else { 2 };
        let pixel_clock = PIXEL_CLOCK / vclk;
        let load = self.registers.load;
        let vblank = self.registers.vblank;
        proof { lemma_field_bounds(load); lemma_field_bounds(vblank); }
        let hcount = (load & 0x3FF) as u64;
        proof {
            let h = hcount as int + 1;
            let p = pixel_clock as int;
            assert(200_000_000 * h / p <= 16_000 && 200_000_000 * h / p >= 1)
                by (nonlinear_arith)
                requires 1 <= h <= 0x400, p == 27_000_000 || p == 13_500_000;
        }
        let cycles_per_scanline = (SH4_CLOCK * (hcount + 1) / pixel_clock) as u32;
        let vin = vblank & 0x3ff;
        let vout = (vblank & 0x3ff0000) >> 16u32;
        proof {
            assert(vin * cycles_per_scanline <= 0x3FF * 16_000) by (nonlinear_arith)
                requires vin <= 0x3FF, cycles_per_scanline <= 16_000;
            assert(vout * cycles_per_scanline <= 0x3FF * 16_000) by (nonlinear_arith)
                requires vout <= 0x3FF, cycles_per_scanline <= 16_000;
        }
        let vblank_in_freq = (vin * cycles_per_scanline) as u64;
        let vblank_out_freq = (vout * cycles_per_scanline) as u64;
        (vblank_in_freq, vblank_in_freq + vblank_out_freq, cycles_per_scanline as u64)
    }

    /// Schedules the first sync event one scanline from now.
    pub fn init(&mut self, scheduler: &mut Scheduler)
        requires
            old(scheduler).time() + 16_000 <= u64::MAX,
        ensures
            *final(self) == *old(self),
            final(scheduler)@ == schedule_result(
                old(scheduler)@,
                old(scheduler).time(),
                sync_event(cycles_per_scanline(old(self).registers.load, 0)),
            ),
            final(scheduler).time() == old(scheduler).time(),
    {
        let (_, _, cycles_per_scanline) = self.recalc_freq(0);
        scheduler.schedule(ScheduledEvent::HollyEvent {
            deadline: cycles_per_scanline,
            event_data: HollyEventData::SpgEvent(SpgEventData::Sync),
        });
    }


    /// The beam enters the next scanline: the line's interrupts are
    /// scheduled and the vertical blank flag follows the line.
    fn enter_next_line(
        &mut self,
        scheduler: &mut Scheduler,
        vcount: u64,
        vstart: u64,
        vend: u64,
        vblank_int_in: u64,
        vblank_int_out: u64,
    )
        requires
            old(self).current_scanline < u64::MAX,
            vcount == high10(old(self).registers.load),
            vstart == low10(old(self).registers.vblank),
            vend == high10(old(self).registers.vblank),
            vblank_int_in == low10(old(self).registers.vblank_int),
            vblank_int_out == high10(old(self).registers.vblank_int),
        ensures
            final(self).registers == old(self).registers,
            final(self).cycles_this_scanline == old(self).cycles_this_scanline,
            final(self).current_scanline == next_line(old(self).registers, old(self).current_scanline),
            final(self).in_vblank == vblank_after(old(self).registers, final(self).current_scanline, old(self).in_vblank),
            final(self).current_scanline <= 0x3FF,
            final(scheduler)@ == schedule_all(
                old(scheduler)@,
                old(scheduler).time(),
                line_events(old(self).registers, final(self).current_scanline),
            ),
            final(scheduler).time() == old(scheduler).time(),
    {
        let ghost regs = self.registers;
        let ghost s0 = scheduler@;
        let ghost now = scheduler.time();
        proof { lemma_field_bounds(regs.load); }
        self.current_scanline = self.current_scanline + 1;
        if self.current_scanline > vcount {
            self.current_scanline = 0;
        }
        let line = self.current_scanline;
        let ghost mut acc: Seq<ScheduledEvent> = seq![];
        assert(schedule_all(s0, now, acc) == s0);
        if line == 0 {
            scheduler.schedule(ScheduledEvent::HollyEvent {
                deadline: 0,
                event_data: HollyEventData::RaiseInterruptNormal { istnrm: 0x20 },
            });
            proof {
                let prev = acc;
                acc = acc.push(raise_now(0x20));
                assert(acc.drop_last() =~= prev);
            }
        }
        assert(scheduler@ == schedule_all(s0, now, acc));
        let ghost mid = acc;
        if vblank_int_in == line {
            scheduler.schedule(ScheduledEvent::HollyEvent {
                deadline: 0,
                event_data: HollyEventData::RaiseInterruptNormal { istnrm: 0x08 },
            });
            proof {
                acc = acc.push(raise_now(0x08));
                assert(acc.drop_last() =~= mid);
            }
            assert(scheduler@ == schedule_all(s0, now, acc));
            let ghost mid2 = acc;
            scheduler.schedule(ScheduledEvent::HollyEvent { deadline: 0, event_data: HollyEventData::VBlank });
            proof {
                acc = acc.push(ScheduledEvent::HollyEvent { deadline: 0, event_data: HollyEventData::VBlank });
                assert(acc.drop_last() =~= mid2);
            }
        }
        assert(scheduler@ == schedule_all(s0, now, acc));
        let ghost mid3 = acc;
        if vblank_int_out == line {
            scheduler.schedule(ScheduledEvent::HollyEvent {
                deadline: 0,
                event_data: HollyEventData::RaiseInterruptNormal { istnrm: 0x10 },
            });
            proof {
                acc = acc.push(raise_now(0x10));
                assert(acc.drop_last() =~= mid3);
            }
        }
        assert(scheduler@ == schedule_all(s0, now, acc));
        if vstart == line {
            self.in_vblank = true;
        }
        if vend == line {
            self.in_vblank = false;
        }
        assert(acc =~= line_events(regs, line));
    }

    /// The sync event: the beam moves on by the scanlines that the elapsed
    /// cycles make up, raising the interrupts of the lines it enters and
    /// tracking the vertical blank, and the next sync event is scheduled for
    /// the next line at which something happens.
    pub fn on_scheduled_event(
        &mut self,
        scheduler: &mut Scheduler,
        r_ctrl: u32,
        target: u64,
        overrun: u64,
        event_data: SpgEventData,
    )
        requires
            sync_allowed(*old(self), old(scheduler).time(), r_ctrl, target, overrun),
        ensures
            sync_done(*old(self), *final(self), old(scheduler)@, final(scheduler)@, old(scheduler).time(), r_ctrl, target, overrun),
            final(scheduler).time() == old(scheduler).time(),
    {
        match event_data {
            SpgEventData::Sync => {
                let ghost regs = self.registers;
                let ghost c0 = self.cycles_this_scanline + target;
                let ghost s0 = scheduler@;
                let ghost now = scheduler.time();
                let ghost line0 = self.current_scanline;
                let ghost vb0 = self.in_vblank;
                self.cycles_this_scanline += target;
                let (_, _, cps) = self.recalc_freq(r_ctrl);

                let load = self.registers.load;
                let vblank = self.registers.vblank;
                let vblank_int = self.registers.vblank_int;
                proof { lemma_field_bounds(load); lemma_field_bounds(vblank); lemma_field_bounds(vblank_int); }
                let vcount = ((load & 0x3FF0000) >> 16u32) as u64;
                let vstart = (vblank & 0x3FF) as u64;
                let vend = ((vblank & 0x3FF0000) >> 16u32) as u64;
                let vblank_int_in = (vblank_int & 0x3FF) as u64;
                let vblank_int_out = ((vblank_int & 0x3FF0000) >> 16u32) as u64;

                let ghost mut i: nat = 0;
                let ghost mut evs: Seq<ScheduledEvent> = seq![];
                while self.cycles_this_scanline >= cps
                    invariant
                        self.registers == regs,
                        cps == cycles_per_scanline(regs.load, r_ctrl),
                        1 <= cps <= 16_000,
                        load == regs.load && vblank == regs.vblank && vblank_int == regs.vblank_int,
                        vcount == high10(regs.load),
                        vstart == low10(regs.vblank),
                        vend == high10(regs.vblank),
                        vblank_int_in == low10(regs.vblank_int),
                        vblank_int_out == high10(regs.vblank_int),
                        self.cycles_this_scanline + i * cps == c0,
                        (self.current_scanline, self.in_vblank, evs) == advance_lines(regs, line0, vb0, i),
                        self.current_scanline < u64::MAX,
                        scheduler@ == schedule_all(s0, now, evs),
                        scheduler.time() == now,
                        now + 0x7FFF_FFFF <= u64::MAX,
                    decreases self.cycles_this_scanline,
                {
                    let ghost before = evs;
                    let ghost sched_before = scheduler@;
                    self.enter_next_line(scheduler, vcount, vstart, vend, vblank_int_in, vblank_int_out);
                    self.cycles_this_scanline -= cps;
                    proof {
                        lemma_schedule_all_append(s0, now, before, line_events(regs, self.current_scanline));
                        evs = before + line_events(regs, self.current_scanline);
                        i = i + 1;
                        assert(c0 == self.cycles_this_scanline + i * cps) by (nonlinear_arith)
                            requires
                                self.cycles_this_scanline + cps + (i - 1) * cps == c0;
                    }
                }
                proof {
                    vstd::arithmetic::div_mod::lemma_fundamental_div_mod_converse(
                        c0 as int,
                        cps as int,
                        i as int,
                        self.cycles_this_scanline as int,
                    );
                }

                let min_scanline = self.current_scanline + 1;
                let mut min_active = vcount;
                if min_scanline < vblank_int_in && vblank_int_in < min_active {
                    min_active = vblank_int_in;
                }
                if min_scanline < vblank_int_out && vblank_int_out < min_active {
                    min_active = vblank_int_out;
                }
                if min_scanline < vstart && vstart < min_active {
                    min_active = vstart;
                }
                if min_scanline < vend && vend < min_active {
                    min_active = vend;
                }
                if min_active < min_scanline {
                    min_active = min_scanline;
                }
                assert(min_active == next_active_line(regs, self.current_scanline));
                let wait = (min_active - self.current_scanline) * cps;
                let d = (wait - overrun) as i32;
                let deadline: u64 = if d > 0 { d as u64 } else { 0 };
                proof {
                    assert(deadline <= 0x7FFF_FFFF);
                }
                scheduler.schedule(ScheduledEvent::HollyEvent {
                    deadline,
                    event_data: HollyEventData::SpgEvent(SpgEventData::Sync),
                });
            },
        }
    }

}

} // verus!
