//! The Holly system chip.
use vstd::prelude::*;

pub mod g1;
pub mod g2;
pub mod maple;
pub mod pvr;
pub mod spg;

use crate::hw::sh4::intc::InterruptKind;
use crate::hw::sh4::SH4EventData;
use crate::hw::extensions::le_word;
use crate::hw::sh4::bus::PhysicalAddress;
use crate::scheduler::{schedule_result, ScheduledEvent, Scheduler};
use g2::aica::{wave_offset, Aica, WAVE_RAM_BASE};
use crate::hw::sh4::dmac::{Dmac, DmacRegisters};
use maple::{maple_done_event, maple_walk, Maple};
use pvr::texture_cache::{all_dirtied, TextureAtlas};
use g2::aica::rtc::{rtc_event, CYCLES_PER_SECOND};
use pvr::framebuffer::{
    fb_read_bytes, fb_size_of, read_ctrl_of, write_ctrl_of, x_clip_of, y_clip_of, FbReadCtrl, FbSize, FbWriteCtrl,
    FbXClip, FbYClip, Framebuffer, FramebufferRegisters, VRAM_MASK,
};
use pvr::{Pvr, PvrRegisters};
use spg::{schedule_all, sync_allowed, sync_done, Spg, SpgRegisters};
use spg::SpgEventData;

verus! {

/// Events that the scheduler delivers to Holly.
#[derive(Copy, Clone, Debug, PartialEq, Eq, Structural)]
pub enum HollyEventData {
    RaiseInterruptNormal { istnrm: u32 },
    RaiseInterruptExternal { istext: u32 },
    LowerExternalInterrupt { istext: u32 },
    RecalculateInterrupts,
    FrameReady(u32),
    SpgEvent(SpgEventData),
    MapleDMA,
    Rtc,
    Ch2DMA,
    GdromDMA,
    AicaDMA,
    VBlank,
}

/// The Holly registers that the rest of the system reads and writes.
#[derive(Clone, Debug)]
pub struct HollyRegisters {
    pub border_col: u32,
    pub video_cfg: u32,
    pub fb_render_modulo: u32,
    pub spansort_cfg: u32,
    pub fog_table_col: u32,
    pub fog_vertex_col: u32,
    pub fog_density: u32,
    pub fog_table: [u32; 0x1fc],
    pub hpos_irq: u32,
    pub ta_itp_current: u32,
    pub ta_opb_start: u32,
    pub ta_isp_base: u32,
    pub ta_ol_limit: u32,
    pub ta_list_cont: u32,
    pub ta_isp_limit: u32,
    pub ta_next_opb: u32,
    pub tilebuf_size: u32,
    pub ta_opb_cfg: u32,
    pub ta_next_opb_init: u32,
    pub ta_list_init: u32,
    pub unk_reg_5f8110: u32,
    pub unk_reg_5f8080: u32,
    pub unk_reg_5f8084: u32,
    pub sync_cfg: u32,
    pub sync_width: u32,
    pub hborder: u32,
    pub vborder: u32,
    pub fb_render_addr1: u32,
    pub fb_render_addr2: u32,
    pub shadow: u32,
    pub ob_cfg: u32,
    pub ta_luminance: u32,
    pub object_clip: u32,
    pub bgplane_z: u32,
    pub clamp_max: u32,
    pub pt_alpha_ref: u32,
    pub clamp_min: u32,
    pub tsp_cfg: u32,
    pub scaler_cfg: u32,
    pub sdram_cfg: u32,
    pub sdram_refresh: u32,
    pub vo_startx: u32,
    pub vo_starty: u32,
    pub pal_ram_ctrl: u32,
}

impl Default for HollyRegisters {
    /// All registers zero.
    fn default() -> (r: HollyRegisters)
        ensures
            r.border_col == 0 && r.video_cfg == 0 && r.fb_render_modulo == 0 && r.sync_cfg == 0
                && r.fb_render_addr1 == 0 && r.fb_render_addr2 == 0 && r.vo_startx == 0 && r.vo_starty == 0,
            forall|i: int| 0 <= i < 0x1fc ==> r.fog_table[i] == 0,
    {
        HollyRegisters {
            border_col: 0,
            video_cfg: 0,
            fb_render_modulo: 0,
            spansort_cfg: 0,
            fog_table_col: 0,
            fog_vertex_col: 0,
            fog_density: 0,
            fog_table: [0; 0x1fc],
            hpos_irq: 0,
            ta_itp_current: 0,
            ta_opb_start: 0,
            ta_isp_base: 0,
            ta_ol_limit: 0,
            ta_list_cont: 0,
            ta_isp_limit: 0,
            ta_next_opb: 0,
            tilebuf_size: 0,
            ta_opb_cfg: 0,
            ta_next_opb_init: 0,
            ta_list_init: 0,
            unk_reg_5f8110: 0,
            unk_reg_5f8080: 0,
            unk_reg_5f8084: 0,
            sync_cfg: 0,
            sync_width: 0,
            hborder: 0,
            vborder: 0,
            fb_render_addr1: 0,
            fb_render_addr2: 0,
            shadow: 0,
            ob_cfg: 0,
            ta_luminance: 0,
            object_clip: 0,
            bgplane_z: 0,
            clamp_max: 0,
            pt_alpha_ref: 0,
            clamp_min: 0,
            tsp_cfg: 0,
            scaler_cfg: 0,
            sdram_cfg: 0,
            sdram_refresh: 0,
            vo_startx: 0,
            vo_starty: 0,
            pal_ram_ctrl: 0,
        }
    }
}

/// The system block's interrupt statuses (normal, external, error) and the
/// masks that route them to the SH-4 interrupt lines of levels 2, 4 and 6.
#[derive(Copy, Clone, Debug, Default)]
pub struct SystemBlockInterrupts {
    pub istnrm: u32,
    pub istext: u32,
    pub isterr: u32,
    pub iml2nrm: u32,
    pub iml2ext: u32,
    pub iml2err: u32,
    pub iml4nrm: u32,
    pub iml4ext: u32,
    pub iml4err: u32,
    pub iml6nrm: u32,
    pub iml6ext: u32,
    pub iml6err: u32,
}

impl SystemBlockInterrupts {
    /// All statuses and masks zero.
    pub open spec fn default_spec() -> SystemBlockInterrupts {
        SystemBlockInterrupts {
            istnrm: 0, istext: 0, isterr: 0, iml2nrm: 0, iml2ext: 0, iml2err: 0,
            iml4nrm: 0, iml4ext: 0, iml4err: 0, iml6nrm: 0, iml6ext: 0, iml6err: 0,
        }
    }

    /// All statuses and masks zero.
    pub fn new() -> (r: Self)
        ensures
            r == Self::default_spec(),
    {
        SystemBlockInterrupts {
            istnrm: 0, istext: 0, isterr: 0, iml2nrm: 0, iml2ext: 0, iml2err: 0,
            iml4nrm: 0, iml4ext: 0, iml4err: 0, iml6nrm: 0, iml6ext: 0, iml6err: 0,
        }
    }
}

/// Whether a pending status meets one of the three masks of a level.
pub open spec fn level_pending(s: SystemBlockInterrupts, nrm: u32, ext: u32, err: u32) -> bool {
    s.istnrm & nrm != 0 || s.istext & ext != 0 || s.isterr & err != 0
}

/// The SH-4 interrupt that Holly raises: IRL9 for a level-6 interrupt,
/// else IRL11 for level 4, else IRL13 for level 2; 0 when none is pending.
pub open spec fn sh4_interrupt_line(s: SystemBlockInterrupts) -> usize {
    if level_pending(s, s.iml6nrm, s.iml6ext, s.iml6err) {
        InterruptKind::IRL9.index_spec() as usize
    } else if level_pending(s, s.iml4nrm, s.iml4ext, s.iml4err) {
        InterruptKind::IRL11.index_spec() as usize
    } else if level_pending(s, s.iml2nrm, s.iml2ext, s.iml2err) {
        InterruptKind::IRL13.index_spec() as usize
    } else {
        0
    }
}

/// The event that raises interrupt line `line` on the SH-4 at once.
pub open spec fn raise_irl_event(line: usize) -> ScheduledEvent {
    ScheduledEvent::SH4Event { deadline: 0, event_data: SH4EventData::RaiseIRL { irl_number: line } }
}

/// Whether Holly's interrupt logic handles event `e`: an interrupt raised
/// or lowered, or a request to re-evaluate the interrupt lines.
pub open spec fn is_interrupt_event(e: HollyEventData) -> bool {
    ||| e is RaiseInterruptNormal
    ||| e is RaiseInterruptExternal
    ||| e is LowerExternalInterrupt
    ||| e is RecalculateInterrupts
}

/// The statuses after interrupt event `e`: a raised interrupt sets its
/// status bits, a lowered external one clears them.
pub open spec fn after_interrupt_event(s: SystemBlockInterrupts, e: HollyEventData) -> SystemBlockInterrupts {
    match e {
        HollyEventData::RaiseInterruptNormal { istnrm } => SystemBlockInterrupts { istnrm: s.istnrm | istnrm, ..s },
        HollyEventData::RaiseInterruptExternal { istext } => SystemBlockInterrupts { istext: s.istext | istext, ..s },
        HollyEventData::LowerExternalInterrupt { istext } => SystemBlockInterrupts { istext: s.istext & !istext, ..s },
        _ => s,
    }
}

impl SystemBlockInterrupts {
    /// The SH-4 interrupt line to raise (`sh4_interrupt_line`).
    pub fn interrupt_line(&self) -> (r: usize)
        ensures
            r == sh4_interrupt_line(*self),
    {
        if (self.istnrm & self.iml6nrm) != 0 || (self.istext & self.iml6ext) != 0 || (self.isterr & self.iml6err) != 0 {
            InterruptKind::IRL9.index()
        } else if (self.istnrm & self.iml4nrm) != 0 || (self.istext & self.iml4ext) != 0 || (self.isterr
            & self.iml4err) != 0 {
            InterruptKind::IRL11.index()
        } else if (self.istnrm & self.iml2nrm) != 0 || (self.istext & self.iml2ext) != 0 || (self.isterr
            & self.iml2err) != 0 {
            InterruptKind::IRL13.index()
        } else {
            0
        }
    }

    /// Raises on the SH-4, at once, the interrupt line that the pending and
    /// unmasked interrupts call for, if any.
    pub fn dispatch_sh4_interrupt(&self, scheduler: &mut Scheduler)
        ensures
            final(scheduler)@ == if sh4_interrupt_line(*self) != 0 {
                schedule_result(old(scheduler)@, old(scheduler).time(), raise_irl_event(sh4_interrupt_line(*self)))
            } else {
                old(scheduler)@
            },
            final(scheduler).time() == old(scheduler).time(),
    {
        let line = self.interrupt_line();
        if line != 0 {
            scheduler.schedule(
                ScheduledEvent::SH4Event { deadline: 0, event_data: SH4EventData::RaiseIRL { irl_number: line } },
            );
        }
    }

    /// Handles an interrupt event: updates the statuses, then raises the
    /// interrupt line they call for.
    pub fn on_interrupt_event(&mut self, scheduler: &mut Scheduler, event: HollyEventData)
        requires
            is_interrupt_event(event),
        ensures
            *final(self) == after_interrupt_event(*old(self), event),
            final(scheduler)@ == if sh4_interrupt_line(*final(self)) != 0 {
                schedule_result(old(scheduler)@, old(scheduler).time(), raise_irl_event(sh4_interrupt_line(*final(self))))
            } else {
                old(scheduler)@
            },
            final(scheduler).time() == old(scheduler).time(),
    {
        match event {
            HollyEventData::RaiseInterruptNormal { istnrm } => {
                self.istnrm = self.istnrm | istnrm;
            },
            HollyEventData::RaiseInterruptExternal { istext } => {
                self.istext = self.istext | istext;
            },
            HollyEventData::LowerExternalInterrupt { istext } => {
                self.istext = self.istext & !istext;
            },
            _ => {},
        }
        self.dispatch_sh4_interrupt(scheduler);
    }
}

/// Lowering an external interrupt undoes raising it: when none of its bits
/// were pending before, the statuses come back to what they were.
pub proof fn law_lower_undoes_raise(s: SystemBlockInterrupts, istext: u32)
    requires
        s.istext & istext == 0,
    ensures
        after_interrupt_event(
            after_interrupt_event(s, HollyEventData::RaiseInterruptExternal { istext }),
            HollyEventData::LowerExternalInterrupt { istext },
        ) == s,
{
    let a = s.istext;
    assert((a | istext) & !istext == a) by (bit_vector)
        requires a & istext == 0;
}

/// The system block's DMA registers: the AICA channel (enable, start
/// flag, system memory start, wave memory start, length, direction) and the
/// Maple channel (table start and start flag).
#[derive(Copy, Clone, Debug, Default, PartialEq, Eq, Structural)]
pub struct SystemBlockDma {
    pub ad_en: u32,
    pub ad_st: u32,
    pub ad_star: u32,
    pub ad_stag: u32,
    pub ad_len: u32,
    pub ad_dir: u32,
    pub mdstar: u32,
    pub mdst: u32,
    pub c2dstat: u32,
    pub c2dlen: u32,
    pub c2dst: u32,
    pub lmmode0: u32,
}

/// The start of system memory on the bus.
pub const SYSTEM_RAM_BASE: u32 = 0x0c00_0000;

/// Wave memory `m` with the little-endian word `v` at offset `a`.
pub open spec fn write_word(m: Seq<u8>, a: int, v: u32) -> Seq<u8> {
    m.update(a, v as u8).update(a + 1, (v >> 8u32) as u8).update(a + 2, (v >> 16u32) as u8).update(a + 3, (v >> 24u32) as u8)
}

/// Wave memory after the first `n` words of an AICA DMA: word `i` is read
/// at byte `src + i` of system memory and written at wave address
/// `dst + i` (the source and destination advance one byte per word).
pub open spec fn aica_dma_wave(mem: Seq<u8>, ram: Seq<u8>, src: int, dst: u32, n: nat) -> Seq<u8>
    decreases n,
{
    if n == 0 {
        mem
    } else {
        let i = n - 1;
        let m = aica_dma_wave(mem, ram, src, dst, i as nat);
        write_word(m, wave_offset(m.len(), (dst + i) as u32), le_word(ram, src + i))
    }
}

/// Whether an AICA DMA of `n` words from byte `src` of `ram` to wave
/// address `dst` stays inside both memories.
pub open spec fn aica_dma_fits(wave_len: nat, ram: Seq<u8>, src: int, dst: u32, n: nat) -> bool {
    &&& dst >= WAVE_RAM_BASE
    &&& wave_len > 0
    &&& dst + n <= u32::MAX
    &&& src >= 0
    &&& src + n + 3 <= ram.len()
    &&& forall|i: int| 0 <= i < n ==> #[trigger] wave_offset(wave_len, (dst + i) as u32) + 3 < wave_len
}

/// The interrupts an AICA DMA raises when it ends: normal status bit 15
/// and external status bit 1, 70000 cycles on.
pub open spec fn aica_dma_done_events() -> Seq<ScheduledEvent> {
    seq![
        ScheduledEvent::HollyEvent { deadline: 70000, event_data: HollyEventData::RaiseInterruptNormal { istnrm: 0x8000 } },
        ScheduledEvent::HollyEvent { deadline: 70000, event_data: HollyEventData::RaiseInterruptExternal { istext: 2 } },
    ]
}

proof fn lemma_aica_dma_len(mem: Seq<u8>, ram: Seq<u8>, src: int, dst: u32, n: nat)
    requires
        mem.len() > 0,
        forall|i: int| 0 <= i < n ==> #[trigger] wave_offset(mem.len(), (dst + i) as u32) + 3 < mem.len(),
    ensures
        aica_dma_wave(mem, ram, src, dst, n).len() == mem.len(),
    decreases n,
{
    if n > 0 {
        lemma_aica_dma_len(mem, ram, src, dst, (n - 1) as nat);
        assert(wave_offset(mem.len(), (dst + (n - 1)) as u32) + 3 < mem.len());
    }
}

impl SystemBlockDma {
    /// All DMA registers zero.
    pub open spec fn default_spec() -> SystemBlockDma {
        SystemBlockDma {
            ad_en: 0, ad_st: 0, ad_star: 0, ad_stag: 0, ad_len: 0, ad_dir: 0, mdstar: 0, mdst: 0,
            c2dstat: 0, c2dlen: 0, c2dst: 0, lmmode0: 0,
        }
    }

    /// All DMA registers zero.
    pub fn new() -> (r: Self)
        ensures
            r == Self::default_spec(),
    {
        SystemBlockDma {
            ad_en: 0, ad_st: 0, ad_star: 0, ad_stag: 0, ad_len: 0, ad_dir: 0, mdstar: 0, mdst: 0,
            c2dstat: 0, c2dlen: 0, c2dst: 0, lmmode0: 0,
        }
    }

    /// An AICA DMA: when enabled, copies `ad_len / 4` words (the length's
    /// top bit ignored) from system memory at `ad_star` to wave memory at
    /// `ad_stag`, clears the start flag and the length, moves both starts
    /// on by the length, and raises the end-of-DMA interrupts; when not
    /// enabled, nothing happens.
    pub fn aica_dma(&mut self, aica: &mut Aica, ram: &[u8], scheduler: &mut Scheduler)
        requires
            old(self).ad_en != 0 ==> {
                &&& old(self).ad_dir == 0
                &&& old(self).ad_star >= SYSTEM_RAM_BASE
                &&& aica_dma_fits(
                    old(aica).wave_ram@.len(),
                    ram@,
                    old(self).ad_star - SYSTEM_RAM_BASE,
                    old(self).ad_stag,
                    ((old(self).ad_len & 0x7FFF_FFFF) / 4) as nat,
                )
                &&& old(scheduler).time() + 70000 <= u64::MAX
            },
        ensures
            old(self).ad_en == 0 ==> *final(self) == *old(self) && final(aica).wave_ram@ == old(aica).wave_ram@
                && final(scheduler)@ == old(scheduler)@,
            old(self).ad_en != 0 ==> {
                let len = old(self).ad_len & 0x7FFF_FFFF;
                &&& final(aica).wave_ram@ == aica_dma_wave(
                    old(aica).wave_ram@,
                    ram@,
                    old(self).ad_star - SYSTEM_RAM_BASE,
                    old(self).ad_stag,
                    (len / 4) as nat,
                )
                &&& *final(self) == (SystemBlockDma {
                    ad_st: 0,
                    ad_len: 0,
                    ad_star: old(self).ad_star.wrapping_add(len),
                    ad_stag: old(self).ad_stag.wrapping_add(len),
                    ..*old(self)
                })
                &&& final(scheduler)@ == schedule_all(old(scheduler)@, old(scheduler).time(), aica_dma_done_events())
            },
            final(aica).channels == old(aica).channels,
            final(aica).timers == old(aica).timers,
            final(aica).rtc == old(aica).rtc,
            final(aica).sound_cpu_interrupts_enabled == old(aica).sound_cpu_interrupts_enabled,
            final(scheduler).time() == old(scheduler).time(),
    {
        if self.ad_en == 0 {
            return;
        }
        let start = self.ad_star;
        let dst = self.ad_stag;
        let len = self.ad_len & 0x7FFF_FFFF;
        let src = (start - SYSTEM_RAM_BASE) as usize;
        let n = len / 4;
        let ghost mem0 = aica.wave_ram@;
        let rl = ram.len();
        let mut i: u32 = 0;
        while i < n
            invariant
                rl == ram@.len(),
                i <= n,
                n == (len / 4),
                aica_dma_fits(mem0.len(), ram@, src as int, dst, n as nat),
                aica.wave_ram@ == aica_dma_wave(mem0, ram@, src as int, dst, i as nat),
                aica.channels == old(aica).channels,
                aica.timers == old(aica).timers,
                aica.rtc == old(aica).rtc,
                aica.sound_cpu_interrupts_enabled == old(aica).sound_cpu_interrupts_enabled,
            decreases n - i,
        {
            proof {
                lemma_aica_dma_len(mem0, ram@, src as int, dst, i as nat);
                assert(wave_offset(mem0.len(), (dst + i) as u32) + 3 < mem0.len());
            }
            assert(src + i + 3 < ram@.len());
            let at = src + i as usize;
            let word = (ram[at] as u32) | ((ram[at + 1] as u32) << 8u32) | ((ram[at + 2] as u32) << 16u32)
                | ((ram[at + 3] as u32) << 24u32);
            aica.write_aica_wave_32(PhysicalAddress(dst + i), word);
            i += 1;
        }
        self.ad_st = 0;
        self.ad_len = 0;
        self.ad_star = start.wrapping_add(len);
        self.ad_stag = dst.wrapping_add(len);
        let ghost s0 = scheduler@;
        let ghost now = scheduler.time();
        scheduler.schedule(
            ScheduledEvent::HollyEvent { deadline: 70000, event_data: HollyEventData::RaiseInterruptNormal { istnrm: 0x8000 } },
        );
        scheduler.schedule(
            ScheduledEvent::HollyEvent { deadline: 70000, event_data: HollyEventData::RaiseInterruptExternal { istext: 2 } },
        );
        proof {
            let e = aica_dma_done_events();
            assert(e.drop_last().drop_last() =~= Seq::<ScheduledEvent>::empty());
            assert(schedule_all(s0, now, e.drop_last().drop_last()) == s0);
            assert(schedule_all(s0, now, e.drop_last()) == schedule_result(s0, now, e[0]));
        }
    }

    /// A Maple DMA: runs the command table at `mdstar` in system memory
    /// and clears the start flag.
    pub fn maple_dma(&mut self, maple: &mut Maple, ram: &mut [u8], scheduler: &mut Scheduler)
        requires
            old(self).mdstar >= SYSTEM_RAM_BASE,
            maple_walk(old(ram)@, old(self).mdstar - SYSTEM_RAM_BASE) is Some,
            old(ram)@.len() + 1024 <= usize::MAX,
            old(scheduler).time() + 200 <= u64::MAX,
        ensures
            final(ram)@ == maple_walk(old(ram)@, old(self).mdstar - SYSTEM_RAM_BASE)->0,
            final(scheduler)@ == schedule_result(old(scheduler)@, old(scheduler).time(), maple_done_event()),
            final(scheduler).time() == old(scheduler).time(),
            *final(self) == (SystemBlockDma { mdst: 0, ..*old(self) }),
    {
        let start = (self.mdstar - SYSTEM_RAM_BASE) as usize;
        maple.perform_maple_transfer(start, scheduler, ram);
        self.mdst = 0;
    }
}

/// The words a channel-2 DMA reads: `n / 4` little-endian words of `ram`
/// from byte `off` on.
pub open spec fn ch2_words(ram: Seq<u8>, off: int, n: int) -> Seq<u32> {
    Seq::new((n / 4) as nat, |i: int| le_word(ram, off + 4 * i))
}

/// Texture memory after the first `k` of `words` are written from byte
/// `base` on.
pub open spec fn vram_after(v: Seq<u8>, base: int, words: Seq<u32>, k: nat) -> Seq<u8>
    decreases k,
{
    if k == 0 {
        v
    } else {
        write_word(vram_after(v, base, words, (k - 1) as nat), base + 4 * (k - 1), words[k - 1])
    }
}

/// Whether a channel-2 DMA to `dst` goes to the tile accelerator.
pub open spec fn ch2_to_ta(dst: u32) -> bool {
    0x1000_0000 <= dst <= 0x10FF_FFFF
}

/// Whether a channel-2 DMA to `dst` goes to texture memory.
pub open spec fn ch2_to_texture(dst: u32) -> bool {
    0x1100_0000 <= dst <= 0x11FF_FFE0
}

/// The event that ends a channel-2 DMA: normal interrupt status bit 19,
/// 20000 cycles on.
pub open spec fn ch2_done_event() -> ScheduledEvent {
    ScheduledEvent::HollyEvent { deadline: 20000, event_data: HollyEventData::RaiseInterruptNormal { istnrm: 0x8_0000 } }
}

proof fn lemma_vram_after_len(v: Seq<u8>, base: int, words: Seq<u32>, k: nat)
    requires
        base >= 0,
        base + 4 * k <= v.len(),
    ensures
        vram_after(v, base, words, k).len() == v.len(),
    decreases k,
{
    if k > 0 {
        lemma_vram_after_len(v, base, words, (k - 1) as nat);
    }
}

impl SystemBlockDma {
    /// A channel-2 DMA of `c2dlen` bytes from system memory at the DMA
    /// controller's channel-2 source (within the 16 MiB of system memory) to
    /// `c2dstat`. To the tile accelerator, the words are answered for it to
    /// take in turn; to texture memory, they are written there from the
    /// destination's offset, the destination moves on, and the textures
    /// holding the destination are marked dirty. Then the source moves on,
    /// the channel's count, enable bit, start flag and length are cleared,
    /// the destination is noted in the channel, and the end-of-DMA interrupt
    /// is raised.
    #[verifier::rlimit(60)]
    pub fn ch2_dma(
        &mut self,
        dmac: &mut Dmac,
        ram: &[u8],
        vram: &mut [u8],
        atlas: &mut TextureAtlas,
        scheduler: &mut Scheduler,
    ) -> (r: Vec<u32>)
        requires
            ch2_to_ta(old(self).c2dstat) || ch2_to_texture(old(self).c2dstat),
            (old(dmac).registers.sar2 & 0xFF_FFFF) + old(self).c2dlen <= ram@.len(),
            ch2_to_texture(old(self).c2dstat) ==> {
                &&& old(self).lmmode0 == 0
                &&& (old(self).c2dstat & 0xFF_FFFF) + 4 * (old(self).c2dlen / 4) <= old(vram)@.len()
            },
            old(scheduler).time() + 20000 <= u64::MAX,
        ensures
            ({
                let dst = old(self).c2dstat;
                let n = old(self).c2dlen;
                let words = ch2_words(ram@, (old(dmac).registers.sar2 & 0xFF_FFFF) as int, n as int);
                &&& r@ == if ch2_to_ta(dst) { words } else { Seq::<u32>::empty() }
                &&& final(vram)@ == if ch2_to_ta(dst) {
                    old(vram)@
                } else {
                    vram_after(old(vram)@, (dst & 0xFF_FFFF) as int, words, words.len())
                }
                &&& final(atlas).textures@ == if ch2_to_ta(dst) {
                    old(atlas).textures@
                } else {
                    all_dirtied(old(atlas).textures@, (dst & 0xFF_FFFF) | 0x0400_0000, false)
                }
                &&& final(dmac).registers == (DmacRegisters {
                    dar2: dst,
                    sar2: old(dmac).registers.sar2.wrapping_add(n),
                    dmatcr2: 0,
                    chcr2: old(dmac).registers.chcr2 & 0xFFFF_FFFE,
                    ..old(dmac).registers
                })
                &&& *final(self) == (SystemBlockDma {
                    c2dstat: if ch2_to_ta(dst) { dst } else { dst.wrapping_add(n) },
                    c2dst: 0,
                    c2dlen: 0,
                    ..*old(self)
                })
            }),
            final(atlas).data == old(atlas).data,
            final(atlas).current_generation == old(atlas).current_generation,
            final(atlas).width == old(atlas).width && final(atlas).height == old(atlas).height,
            final(scheduler)@ == schedule_result(old(scheduler)@, old(scheduler).time(), ch2_done_event()),
            final(scheduler).time() == old(scheduler).time(),
    {
        let dst = self.c2dstat;
        let n = self.c2dlen;
        dmac.registers.dar2 = dst;
        let src = dmac.registers.sar2;
        let off = (src & 0xFF_FFFF) as usize;
        let ghost words = ch2_words(ram@, off as int, n as int);
        let count = n / 4;
        let mut out: Vec<u32> = Vec::new();
        let to_ta = dst >= 0x1000_0000 && dst <= 0x10FF_FFFF;
        let base = (dst & 0xFF_FFFF) as usize;
        let vlen = vram.len();
        let rl = ram.len();
        let ghost v0 = vram@;
        let mut i: u32 = 0;
        while i < count
            invariant
                rl == ram@.len(),
                vlen == vram@.len(),
                i <= count,
                count == n / 4,
                off + n <= rl,
                words == ch2_words(ram@, off as int, n as int),
                to_ta ==> out@ == words.take(i as int) && vram@ == v0,
                !to_ta ==> out@ == Seq::<u32>::empty() && vram@ == vram_after(v0, base as int, words, i as nat),
                !to_ta ==> base + 4 * count <= vlen && v0.len() == vlen,
            decreases count - i,
        {
            let at = off + 4 * (i as usize);
            let w = (ram[at] as u32) | ((ram[at + 1] as u32) << 8u32) | ((ram[at + 2] as u32) << 16u32)
                | ((ram[at + 3] as u32) << 24u32);
            assert(w == words[i as int]);
            if to_ta {
                out.push(w);
                proof {
                    assert(out@ =~= words.take(i + 1));
                }
            } else {
                let b = base + 4 * (i as usize);
                proof {
                    lemma_vram_after_len(v0, base as int, words, i as nat);
                }
                vram[b] = w as u8;
                vram[b + 1] = (w >> 8u32) as u8;
                vram[b + 2] = (w >> 16u32) as u8;
                vram[b + 3] = (w >> 24u32) as u8;
            }
            i += 1;
        }
        proof {
            if to_ta {
                assert(words.take(count as int) =~= words);
            }
        }
        if !to_ta {
            self.c2dstat = dst.wrapping_add(n);
            atlas.notify_write((dst & 0xFF_FFFF) | 0x0400_0000);
        }
        dmac.registers.sar2 = src.wrapping_add(n);
        dmac.registers.dmatcr2 = 0;
        dmac.registers.chcr2 = dmac.registers.chcr2 & 0xFFFF_FFFE;
        self.c2dst = 0;
        self.c2dlen = 0;
        scheduler.schedule(
            ScheduledEvent::HollyEvent { deadline: 20000, event_data: HollyEventData::RaiseInterruptNormal { istnrm: 0x8_0000 } },
        );
        out
    }
}

impl HollyRegisters {
    /// A 32-bit write of `value` to register `addr`: the register takes
    /// it (`holly_regs_after`), or the fog table entry at `addr` does.
    #[verifier::rlimit(60)]
    pub fn write_32(&mut self, addr: u32, value: u32)
        ensures
            !is_fog_entry(addr) ==> *final(self) == holly_regs_after(*old(self), addr, value),
            is_fog_entry(addr) ==> {
                &&& final(self).fog_table@ == old(self).fog_table@.update((addr - 0x005f8200) / 4, value)
                &&& *final(self) == (HollyRegisters { fog_table: final(self).fog_table, ..*old(self) })
            },
    {
        if addr == 0x005f8030 {
            self.spansort_cfg = value;
        } else if addr == 0x005f8040 {
            self.border_col = value;
        } else if addr == 0x005f804c {
            self.fb_render_modulo = value;
        } else if addr == 0x005f8060 {
            self.fb_render_addr1 = value;
        } else if addr == 0x005f8064 {
            self.fb_render_addr2 = value;
        } else if addr == 0x005f8074 {
            self.shadow = value;
        } else if addr == 0x005f8078 {
            self.object_clip = value;
        } else if addr == 0x005f807c {
            self.ob_cfg = value;
        } else if addr == 0x005f8080 {
            self.unk_reg_5f8080 = value;
        } else if addr == 0x005f8084 {
            self.unk_reg_5f8084 = value;
        } else if addr == 0x005f8088 {
            self.bgplane_z = value;
        } else if addr == 0x005f80a0 {
            self.sdram_refresh = value;
        } else if addr == 0x005f80a8 {
            self.sdram_cfg = value;
        } else if addr == 0x005f80b0 {
            self.fog_table_col = value;
        } else if addr == 0x005f80b4 {
            self.fog_vertex_col = value;
        } else if addr == 0x005f80b8 {
            self.fog_density = value;
        } else if addr == 0x005f80bc {
            self.clamp_max = value;
        } else if addr == 0x005f80c0 {
            self.clamp_min = value;
        } else if addr == 0x005f80c8 {
            self.hpos_irq = value;
        } else if addr == 0x005f80d0 {
            self.sync_cfg = value;
        } else if addr == 0x005f80d4 {
            self.hborder = value;
        } else if addr == 0x005f80dc {
            self.vborder = value;
        } else if addr == 0x005f80e0 {
            self.sync_width = value;
        } else if addr == 0x005f80e4 {
            self.tsp_cfg = value;
        } else if addr == 0x005f80e8 {
            self.video_cfg = value;
        } else if addr == 0x005f80ec {
            self.vo_startx = value;
        } else if addr == 0x005f80f0 {
            self.vo_starty = value;
        } else if addr == 0x005f80f4 {
            self.scaler_cfg = value;
        } else if addr == 0x005f8110 {
            self.unk_reg_5f8110 = value;
        } else if addr == 0x005f8118 {
            self.ta_luminance = value;
        } else if addr == 0x005f811c {
            self.pt_alpha_ref = value;
        } else if addr == 0x005f8124 {
            self.ta_opb_start = value;
        } else if addr == 0x005f8128 {
            self.ta_isp_base = value;
        } else if addr == 0x005f812c {
            self.ta_ol_limit = value;
        } else if addr == 0x005f8130 {
            self.ta_isp_limit = value;
        } else if addr == 0x005f813c {
            self.tilebuf_size = value;
        } else if addr == 0x005f8140 {
            self.ta_opb_cfg = value;
        } else if addr == 0x005f8160 {
            self.ta_list_cont = value;
        } else if addr == 0x005f8164 {
            self.ta_next_opb_init = value;
        } else if addr == 0x005f8108 {
            self.pal_ram_ctrl = value;
        } else if addr == 0x005f8144 {
            self.ta_list_init = value;
            if self.ta_list_cont & 0x8000_0000 == 0 {
                self.ta_next_opb = self.ta_next_opb_init;
                self.ta_itp_current = self.ta_isp_base;
            }
        } else if addr >= 0x005f8200 && addr <= 0x005f83ff {
            let i = ((addr - 0x005f8200) / 4) as usize;
            self.fog_table[i] = value;
        }
    }
}

/// Where a 32-bit write to Holly went.
#[derive(Copy, Clone, Debug, PartialEq, Eq, Structural)]
pub enum HollyWrite {
    /// Holly took it (or ignored it).
    Done,
    /// A GD-ROM register, which the drive takes.
    Gdrom,
    /// A system block register other than those held here, which the system
    /// block takes.
    SystemBlock,
}

/// The address of an entry of the fog table.
pub open spec fn is_fog_entry(addr: u32) -> bool {
    0x005f8200 <= addr <= 0x005f83ff
}

/// Holly's registers after a 32-bit write of `value` to `addr`, apart from
/// the fog table: each register takes the value written; a write of
/// TA_LIST_INIT also resets the next object pointer block and the ISP/TSP
/// pointer unless TA_LIST_CONT asks to continue the list.
pub open spec fn holly_regs_after(r: HollyRegisters, addr: u32, value: u32) -> HollyRegisters {
    if addr == 0x005f8030 {
        HollyRegisters { spansort_cfg: value, ..r }
    } else if addr == 0x005f8040 {
        HollyRegisters { border_col: value, ..r }
    } else if addr == 0x005f804c {
        HollyRegisters { fb_render_modulo: value, ..r }
    } else if addr == 0x005f8060 {
        HollyRegisters { fb_render_addr1: value, ..r }
    } else if addr == 0x005f8064 {
        HollyRegisters { fb_render_addr2: value, ..r }
    } else if addr == 0x005f8074 {
        HollyRegisters { shadow: value, ..r }
    } else if addr == 0x005f8078 {
        HollyRegisters { object_clip: value, ..r }
    } else if addr == 0x005f807c {
        HollyRegisters { ob_cfg: value, ..r }
    } else if addr == 0x005f8080 {
        HollyRegisters { unk_reg_5f8080: value, ..r }
    } else if addr == 0x005f8084 {
        HollyRegisters { unk_reg_5f8084: value, ..r }
    } else if addr == 0x005f8088 {
        HollyRegisters { bgplane_z: value, ..r }
    } else if addr == 0x005f80a0 {
        HollyRegisters { sdram_refresh: value, ..r }
    } else if addr == 0x005f80a8 {
        HollyRegisters { sdram_cfg: value, ..r }
    } else if addr == 0x005f80b0 {
        HollyRegisters { fog_table_col: value, ..r }
    } else if addr == 0x005f80b4 {
        HollyRegisters { fog_vertex_col: value, ..r }
    } else if addr == 0x005f80b8 {
        HollyRegisters { fog_density: value, ..r }
    } else if addr == 0x005f80bc {
        HollyRegisters { clamp_max: value, ..r }
    } else if addr == 0x005f80c0 {
        HollyRegisters { clamp_min: value, ..r }
    } else if addr == 0x005f80c8 {
        HollyRegisters { hpos_irq: value, ..r }
    } else if addr == 0x005f80d0 {
        HollyRegisters { sync_cfg: value, ..r }
    } else if addr == 0x005f80d4 {
        HollyRegisters { hborder: value, ..r }
    } else if addr == 0x005f80dc {
        HollyRegisters { vborder: value, ..r }
    } else if addr == 0x005f80e0 {
        HollyRegisters { sync_width: value, ..r }
    } else if addr == 0x005f80e4 {
        HollyRegisters { tsp_cfg: value, ..r }
    } else if addr == 0x005f80e8 {
        HollyRegisters { video_cfg: value, ..r }
    } else if addr == 0x005f80ec {
        HollyRegisters { vo_startx: value, ..r }
    } else if addr == 0x005f80f0 {
        HollyRegisters { vo_starty: value, ..r }
    } else if addr == 0x005f80f4 {
        HollyRegisters { scaler_cfg: value, ..r }
    } else if addr == 0x005f8110 {
        HollyRegisters { unk_reg_5f8110: value, ..r }
    } else if addr == 0x005f8118 {
        HollyRegisters { ta_luminance: value, ..r }
    } else if addr == 0x005f811c {
        HollyRegisters { pt_alpha_ref: value, ..r }
    } else if addr == 0x005f8124 {
        HollyRegisters { ta_opb_start: value, ..r }
    } else if addr == 0x005f8128 {
        HollyRegisters { ta_isp_base: value, ..r }
    } else if addr == 0x005f812c {
        HollyRegisters { ta_ol_limit: value, ..r }
    } else if addr == 0x005f8130 {
        HollyRegisters { ta_isp_limit: value, ..r }
    } else if addr == 0x005f813c {
        HollyRegisters { tilebuf_size: value, ..r }
    } else if addr == 0x005f8140 {
        HollyRegisters { ta_opb_cfg: value, ..r }
    } else if addr == 0x005f8160 {
        HollyRegisters { ta_list_cont: value, ..r }
    } else if addr == 0x005f8164 {
        HollyRegisters { ta_next_opb_init: value, ..r }
    } else if addr == 0x005f8108 {
        HollyRegisters { pal_ram_ctrl: value, ..r }
    } else if addr == 0x005f8144 {
        if r.ta_list_cont & 0x8000_0000 == 0 {
            HollyRegisters { ta_list_init: value, ta_next_opb: r.ta_next_opb_init, ta_itp_current: r.ta_isp_base, ..r }
        } else {
            HollyRegisters { ta_list_init: value, ..r }
        }
    } else {
        r
    }
}

/// The framebuffer block after a 32-bit write of `value` to `addr`: its
/// read and write controls (with their unused bits cleared), base
/// addresses, read size, clip registers and the interlace bit of SYNC_CFG;
/// a new read size also resets the watched ranges and the dirty flag.
pub open spec fn framebuffer_after(fb: Framebuffer, addr: u32, value: u32) -> Framebuffer {
    let regs = fb.registers;
    if addr == 0x005f8044 {
        Framebuffer { registers: FramebufferRegisters { read_ctrl: read_ctrl_of(value & 0x00FF_FF7F), ..regs }, ..fb }
    } else if addr == 0x005f8048 {
        Framebuffer { registers: FramebufferRegisters { write_ctrl: write_ctrl_of(value & 0x00FF_FF0F), ..regs }, ..fb }
    } else if addr == 0x005f8050 {
        Framebuffer { registers: FramebufferRegisters { base_address: value, ..regs }, ..fb }
    } else if addr == 0x005f8054 {
        Framebuffer { registers: FramebufferRegisters { base_address2: value, ..regs }, ..fb }
    } else if addr == 0x005f805c {
        let nregs = FramebufferRegisters { read_size: fb_size_of(value), ..regs };
        if regs.read_size.raw != value {
            let ws = nregs.base_address & VRAM_MASK;
            let ws1 = nregs.base_address2 & VRAM_MASK;
            Framebuffer {
                registers: nregs,
                watch_start: ws,
                watch_end: (ws + fb_read_bytes(nregs)) as u32,
                watch_start1: ws1,
                watch_end1: (ws1 + fb_read_bytes(nregs)) as u32,
                dirty: false,
                ..fb
            }
        } else {
            Framebuffer { registers: nregs, ..fb }
        }
    } else if addr == 0x005f8068 {
        Framebuffer { registers: FramebufferRegisters { x_clip: x_clip_of(value), ..regs }, ..fb }
    } else if addr == 0x005f806c {
        Framebuffer { registers: FramebufferRegisters { y_clip: y_clip_of(value), ..regs }, ..fb }
    } else if addr == 0x005f80d0 {
        Framebuffer { interlaced: value & 0x10 != 0, ..fb }
    } else {
        fb
    }
}

/// The frame-ready event a write of STARTRENDER schedules, for the display
/// list at parameter base `param_base`.
pub open spec fn frame_ready_event(param_base: u32) -> ScheduledEvent {
    ScheduledEvent::HollyEvent { deadline: 0, event_data: HollyEventData::FrameReady(param_base) }
}

/// The sync pulse generator's registers after a 32-bit write to `addr`.
pub open spec fn spg_regs_after(r: SpgRegisters, addr: u32, value: u32) -> SpgRegisters {
    if addr == 0x005f80cc {
        SpgRegisters { vblank_int: value, ..r }
    } else if addr == 0x005f80d8 {
        SpgRegisters { load: value, ..r }
    } else {
        r
    }
}

/// The tile accelerator's registers after a 32-bit write to `addr`.
pub open spec fn pvr_regs_after(r: PvrRegisters, addr: u32, value: u32) -> PvrRegisters {
    if addr == 0x005f808c {
        PvrRegisters { isp_backgnd_t: value, ..r }
    } else if addr == 0x005f8090 || addr == 0x005f8098 {
        PvrRegisters { isp_feed_cfg: value, ..r }
    } else if addr == 0x005f8020 {
        PvrRegisters { param_base: value, ..r }
    } else if addr == 0x005f802c {
        PvrRegisters { region_base: value, ..r }
    } else {
        r
    }
}

/// Whether `addr` is in wave memory or its mirror.
pub open spec fn is_wave_address(addr: u32) -> bool {
    0x0080_0000 <= addr <= 0x00FF_FFFF
}

/// Whether `addr` is an AICA register.
pub open spec fn is_aica_register(addr: u32) -> bool {
    0x0070_0000 <= addr <= 0x0070_7FFF
}

/// Whether `addr` is a GD-ROM register.
pub open spec fn is_gdrom_register(addr: u32) -> bool {
    0x005f_7018 <= addr <= 0x005f_709c
}

/// Whether `addr` is a system block register.
pub open spec fn is_system_block_register(addr: u32) -> bool {
    0x005f_6800 <= addr <= 0x005f_7cf8
}

/// The Holly chip as far as its parts are held here: its registers, the
/// sync pulse generator, the system block's interrupt and DMA registers,
/// the Maple bus, the tile accelerator, the framebuffer read-out, the AICA,
/// texture memory and the texture cache. The GD-ROM drive is not held.
pub struct Holly {
    pub registers: HollyRegisters,
    pub spg: Spg,
    pub interrupts: SystemBlockInterrupts,
    pub dma: SystemBlockDma,
    pub cyc: u64,
    pub maple: Maple,
    pub pvr: Pvr,
    pub framebuffer: Framebuffer,
    pub aica: Aica,
    pub vram: Vec<u8>,
    pub texture_atlas: TextureAtlas,
}

/// What handling a Holly event leaves to the caller.
#[derive(Clone, Debug)]
pub enum HollyEventOutcome {
    /// Nothing: the event was handled.
    Handled,
    /// A channel-2 DMA to the tile accelerator: these words are for it to
    /// take, in order.
    TaWords(Vec<u32>),
    /// A GD-ROM DMA, which the drive handles.
    Gdrom,
}

/// Whether Holly can handle `event` in state `h` with the scheduler at
/// `now`, `target` and `overrun` as the loop computed them, DMA channel
/// registers `dmac` and system memory `ram`.
pub open spec fn holly_event_allowed(
    h: Holly,
    now: u64,
    dmac: DmacRegisters,
    ram: Seq<u8>,
    target: u64,
    overrun: u64,
    event: HollyEventData,
) -> bool {
    match event {
        HollyEventData::SpgEvent(_) => sync_allowed(h.spg, now, h.framebuffer.registers.read_ctrl.raw, target, overrun),
        HollyEventData::Rtc => now + CYCLES_PER_SECOND <= u64::MAX,
        HollyEventData::AicaDMA => h.dma.ad_en != 0 ==> {
            &&& h.dma.ad_dir == 0
            &&& h.dma.ad_star >= SYSTEM_RAM_BASE
            &&& aica_dma_fits(h.aica.wave_ram@.len(), ram, h.dma.ad_star - SYSTEM_RAM_BASE, h.dma.ad_stag, ((h.dma.ad_len & 0x7FFF_FFFF) / 4) as nat)
            &&& now + 70000 <= u64::MAX
        },
        HollyEventData::MapleDMA => {
            &&& h.dma.mdstar >= SYSTEM_RAM_BASE
            &&& maple_walk(ram, h.dma.mdstar - SYSTEM_RAM_BASE) is Some
            &&& ram.len() + 1024 <= usize::MAX
            &&& now + 200 <= u64::MAX
        },
        HollyEventData::Ch2DMA => {
            &&& ch2_to_ta(h.dma.c2dstat) || ch2_to_texture(h.dma.c2dstat)
            &&& (dmac.sar2 & 0xFF_FFFF) + h.dma.c2dlen <= ram.len()
            &&& ch2_to_texture(h.dma.c2dstat) ==> h.dma.lmmode0 == 0 && (h.dma.c2dstat & 0xFF_FFFF) + 4 * (h.dma.c2dlen / 4) <= h.vram@.len()
            &&& now + 20000 <= u64::MAX
        },
        _ => true,
    }
}

impl Holly {
    /// Holly at power-on, the RTC set to `unix_seconds`, with texture memory
    /// `vram` and a 4096 by 4096 texture cache.
    pub fn new(unix_seconds: u64, vram: Vec<u8>) -> (r: Self)
        ensures
            r.vram@ == vram@,
            r.cyc == 0,
            r.interrupts == SystemBlockInterrupts::default_spec(),
            r.dma == SystemBlockDma::default_spec(),
            r.aica.rtc.timestamp == g2::aica::rtc::dreamcast_seconds(unix_seconds),
            r.pvr.parameter_cursor == 0,
            r.texture_atlas.textures@ == Map::<u64, pvr::texture_cache::TextureMetadata>::empty(),
    {
        Holly {
            registers: HollyRegisters::default(),
            spg: Spg::new(),
            interrupts: SystemBlockInterrupts::new(),
            dma: SystemBlockDma::new(),
            cyc: 0,
            maple: Maple::new(),
            pvr: Pvr::new(),
            framebuffer: Framebuffer::new(),
            aica: Aica::new(unix_seconds),
            vram,
            texture_atlas: TextureAtlas::new(4096, 4096),
        }
    }

    /// Schedules the first events of the sync pulse generator and the RTC.
    pub fn init(&mut self, scheduler: &mut Scheduler)
        requires
            old(scheduler).time() + CYCLES_PER_SECOND <= u64::MAX,
        ensures
            *final(self) == *old(self),
            final(scheduler)@ == schedule_result(
                schedule_result(
                    old(scheduler)@,
                    old(scheduler).time(),
                    spg::sync_event(spg::cycles_per_scanline(old(self).spg.registers.load, 0)),
                ),
                old(scheduler).time(),
                rtc_event(),
            ),
            final(scheduler).time() == old(scheduler).time(),
    {
        self.spg.init(scheduler);
        self.aica.rtc.init(scheduler);
    }

    /// A 32-bit write by the SH-4: to wave memory or the AICA registers; to
    /// the GD-ROM or the other system block registers, which take it
    /// themselves (answered); to Holly's, the framebuffer's, the sync pulse
    /// generator's or the tile accelerator's registers; STARTRENDER
    /// schedules the frame-ready event of the current parameter base; other
    /// addresses are ignored.
    #[verifier::rlimit(100)]
    pub fn write_32(&mut self, addr: PhysicalAddress, value: u32, scheduler: &mut Scheduler) -> (r: HollyWrite)
        requires
            is_wave_address(addr.0) ==> {
                &&& old(self).aica.wave_ram@.len() > 0
                &&& wave_offset(old(self).aica.wave_ram@.len(), addr.0) + 3 < old(self).aica.wave_ram@.len()
            },
            addr.0 == 0x005f805c && old(self).framebuffer.registers.read_size.raw != value ==> {
                let nregs = FramebufferRegisters { read_size: fb_size_of(value), ..old(self).framebuffer.registers };
                &&& fb_read_bytes(nregs) <= u32::MAX
                &&& (nregs.base_address & VRAM_MASK) + fb_read_bytes(nregs) <= u32::MAX
                &&& (nregs.base_address2 & VRAM_MASK) + fb_read_bytes(nregs) <= u32::MAX
            },
        ensures
            r == if is_wave_address(addr.0) || is_aica_register(addr.0) {
                HollyWrite::Done
            } else if is_gdrom_register(addr.0) {
                HollyWrite::Gdrom
            } else if is_system_block_register(addr.0) {
                HollyWrite::SystemBlock
            } else {
                HollyWrite::Done
            },
            is_wave_address(addr.0) ==> {
                &&& final(self).aica.wave_ram@ == write_word(
                    old(self).aica.wave_ram@,
                    wave_offset(old(self).aica.wave_ram@.len(), addr.0),
                    value,
                )
                &&& final(self).aica.channels == old(self).aica.channels
                &&& final(self).aica.timers == old(self).aica.timers
                &&& final(self).aica.rtc == old(self).aica.rtc
                &&& final(self).aica.sound_cpu_interrupts_enabled == old(self).aica.sound_cpu_interrupts_enabled
            },
            is_aica_register(addr.0) ==> g2::aica::register_written(old(self).aica, final(self).aica, addr.0, value),
            !is_wave_address(addr.0) && !is_aica_register(addr.0) ==> final(self).aica == old(self).aica,
            !is_fog_entry(addr.0) ==> final(self).registers == holly_regs_after(old(self).registers, addr.0, value),
            is_fog_entry(addr.0) ==> {
                &&& final(self).registers.fog_table@ == old(self).registers.fog_table@.update((addr.0 - 0x005f8200) / 4, value)
                &&& final(self).registers == (HollyRegisters { fog_table: final(self).registers.fog_table, ..old(self).registers })
            },
            final(self).framebuffer == framebuffer_after(old(self).framebuffer, addr.0, value),
            final(self).spg == (Spg { registers: spg_regs_after(old(self).spg.registers, addr.0, value), ..old(self).spg }),
            final(self).pvr == (Pvr { registers: pvr_regs_after(old(self).pvr.registers, addr.0, value), ..old(self).pvr }),
            final(scheduler)@ == if addr.0 == 0x005f8014 {
                schedule_result(old(scheduler)@, old(scheduler).time(), frame_ready_event(old(self).pvr.registers.param_base))
            } else {
                old(scheduler)@
            },
            final(scheduler).time() == old(scheduler).time(),
            final(self).interrupts == old(self).interrupts,
            final(self).dma == old(self).dma,
            final(self).cyc == old(self).cyc,
            final(self).maple == old(self).maple,
            final(self).vram@ == old(self).vram@,
            final(self).texture_atlas.textures@ == old(self).texture_atlas.textures@,
    {
        let a = addr.0;
        if a >= 0x0080_0000 && a <= 0x00FF_FFFF {
            self.aica.write_aica_wave_32(addr, value);
            return HollyWrite::Done;
        }
        if a >= 0x0070_0000 && a <= 0x0070_7FFF {
            self.aica.write_aica_register_32(addr, value);
            return HollyWrite::Done;
        }
        if a == 0x005F_8000 || a == 0x005F_8004 {
            return HollyWrite::Done;
        }
        if a >= 0x005f_7018 && a <= 0x005f_709c {
            return HollyWrite::Gdrom;
        }
        if a >= 0x005f_6800 && a <= 0x005f_7cf8 {
            return HollyWrite::SystemBlock;
        }
        if a == 0x005f8044 {
            self.framebuffer.registers.read_ctrl = FbReadCtrl::from_raw(value & 0x00FF_FF7F);
        } else if a == 0x005f8048 {
            self.framebuffer.registers.write_ctrl = FbWriteCtrl::from_raw(value & 0x00FF_FF0F);
        } else if a == 0x005f8050 {
            self.framebuffer.registers.base_address = value;
        } else if a == 0x005f8054 {
            self.framebuffer.registers.base_address2 = value;
        } else if a == 0x005f805c {
            let current = self.framebuffer.registers.read_size.raw;
            self.framebuffer.registers.read_size = FbSize::from_raw(value);
            if current != value {
                self.framebuffer.invalidate_watches();
            }
        } else if a == 0x005f8014 {
            scheduler.schedule(
                ScheduledEvent::HollyEvent {
                    deadline: 0,
                    event_data: HollyEventData::FrameReady(self.pvr.registers.param_base),
                },
            );
        } else if a == 0x005f8068 {
            self.framebuffer.registers.x_clip = FbXClip::from_raw(value);
        } else if a == 0x005f806c {
            self.framebuffer.registers.y_clip = FbYClip::from_raw(value);
        } else if a == 0x005f808c {
            self.pvr.registers.isp_backgnd_t = value;
        } else if a == 0x005f80cc {
            self.spg.registers.vblank_int = value;
        } else if a == 0x005f80d0 {
            self.framebuffer.interlaced = value & 0x10 != 0;
        } else if a == 0x005f80d8 {
            self.spg.registers.load = value;
        } else if a == 0x005f8090 || a == 0x005f8098 {
            self.pvr.registers.isp_feed_cfg = value;
        } else if a == 0x005f8020 {
            self.pvr.registers.param_base = value;
        } else if a == 0x005f802c {
            self.pvr.registers.region_base = value;
        }
        self.registers.write_32(a, value);
        HollyWrite::Done
    }

    /// A scheduled Holly event: the sync pulse generator's sync, the RTC's
    /// second, an interrupt raised, lowered or re-evaluated, an AICA, Maple
    /// or channel-2 DMA; a frame-ready or vertical-blank event asks nothing
    /// of Holly, and a GD-ROM DMA is the drive's.
    #[verifier::rlimit(60)]
    pub fn on_scheduled_event(
        &mut self,
        scheduler: &mut Scheduler,
        dmac: &mut Dmac,
        ram: &mut [u8],
        target: u64,
        overrun: u64,
        event: HollyEventData,
    ) -> (r: HollyEventOutcome)
        requires
            holly_event_allowed(*old(self), old(scheduler).time(), old(dmac).registers, old(ram)@, target, overrun, event),
        ensures
            final(scheduler).time() == old(scheduler).time(),
            final(self).registers == old(self).registers,
            final(self).cyc == old(self).cyc,
            final(self).pvr == old(self).pvr,
            final(self).framebuffer == old(self).framebuffer,
            event is SpgEvent ==> sync_done(
                old(self).spg,
                final(self).spg,
                old(scheduler)@,
                final(scheduler)@,
                old(scheduler).time(),
                old(self).framebuffer.registers.read_ctrl.raw,
                target,
                overrun,
            ),
            !(event is SpgEvent) ==> final(self).spg == old(self).spg,
            is_interrupt_event(event) ==> {
                &&& final(self).interrupts == after_interrupt_event(old(self).interrupts, event)
                &&& final(scheduler)@ == if sh4_interrupt_line(final(self).interrupts) != 0 {
                    schedule_result(old(scheduler)@, old(scheduler).time(), raise_irl_event(sh4_interrupt_line(final(self).interrupts)))
                } else {
                    old(scheduler)@
                }
            },
            !is_interrupt_event(event) ==> final(self).interrupts == old(self).interrupts,
            event is Rtc ==> {
                &&& final(self).aica.rtc.timestamp == old(self).aica.rtc.timestamp.wrapping_add(1)
                &&& final(scheduler)@ == schedule_result(old(scheduler)@, old(scheduler).time(), rtc_event())
            },
            !(event is Rtc) && !(event is AicaDMA) ==> final(self).aica == old(self).aica,
            event is AicaDMA ==> {
                &&& final(self).aica.channels == old(self).aica.channels
                &&& final(self).aica.timers == old(self).aica.timers
                &&& final(self).aica.rtc == old(self).aica.rtc
                &&& old(self).dma.ad_en == 0 ==> final(self).dma == old(self).dma
                    && final(self).aica.wave_ram@ == old(self).aica.wave_ram@ && final(scheduler)@ == old(scheduler)@
                &&& old(self).dma.ad_en != 0 ==> {
                    let len = old(self).dma.ad_len & 0x7FFF_FFFF;
                    &&& final(self).aica.wave_ram@ == aica_dma_wave(
                        old(self).aica.wave_ram@,
                        old(ram)@,
                        old(self).dma.ad_star - SYSTEM_RAM_BASE,
                        old(self).dma.ad_stag,
                        (len / 4) as nat,
                    )
                    &&& final(self).dma == (SystemBlockDma {
                        ad_st: 0,
                        ad_len: 0,
                        ad_star: old(self).dma.ad_star.wrapping_add(len),
                        ad_stag: old(self).dma.ad_stag.wrapping_add(len),
                        ..old(self).dma
                    })
                    &&& final(scheduler)@ == schedule_all(old(scheduler)@, old(scheduler).time(), aica_dma_done_events())
                }
            },
            event is MapleDMA ==> {
                &&& final(ram)@ == maple_walk(old(ram)@, old(self).dma.mdstar - SYSTEM_RAM_BASE)->0
                &&& final(scheduler)@ == schedule_result(old(scheduler)@, old(scheduler).time(), maple_done_event())
                &&& final(self).dma == (SystemBlockDma { mdst: 0, ..old(self).dma })
            },
            !(event is MapleDMA) ==> final(ram)@ == old(ram)@,
            event is Ch2DMA ==> {
                let dst = old(self).dma.c2dstat;
                let n = old(self).dma.c2dlen;
                let words = ch2_words(old(ram)@, (old(dmac).registers.sar2 & 0xFF_FFFF) as int, n as int);
                &&& ch2_to_ta(dst) ==> (r matches HollyEventOutcome::TaWords(w) && w@ == words)
                &&& !ch2_to_ta(dst) ==> r is Handled
                &&& final(self).vram@ == if ch2_to_ta(dst) {
                    old(self).vram@
                } else {
                    vram_after(old(self).vram@, (dst & 0xFF_FFFF) as int, words, words.len())
                }
                &&& final(self).texture_atlas.textures@ == if ch2_to_ta(dst) {
                    old(self).texture_atlas.textures@
                } else {
                    all_dirtied(old(self).texture_atlas.textures@, (dst & 0xFF_FFFF) | 0x0400_0000, false)
                }
                &&& final(dmac).registers == (DmacRegisters {
                    dar2: dst,
                    sar2: old(dmac).registers.sar2.wrapping_add(n),
                    dmatcr2: 0,
                    chcr2: old(dmac).registers.chcr2 & 0xFFFF_FFFE,
                    ..old(dmac).registers
                })
                &&& final(self).dma == (SystemBlockDma {
                    c2dstat: if ch2_to_ta(dst) { dst } else { dst.wrapping_add(n) },
                    c2dst: 0,
                    c2dlen: 0,
                    ..old(self).dma
                })
                &&& final(scheduler)@ == schedule_result(old(scheduler)@, old(scheduler).time(), ch2_done_event())
            },
            !(event is Ch2DMA) ==> {
                &&& final(self).vram@ == old(self).vram@
                &&& final(self).texture_atlas.textures@ == old(self).texture_atlas.textures@
                &&& *final(dmac) == *old(dmac)
            },
            !(event is AicaDMA) && !(event is MapleDMA) && !(event is Ch2DMA) ==> final(self).dma == old(self).dma,
            event is GdromDMA ==> r is Gdrom,
            !(event is Ch2DMA) && !(event is GdromDMA) ==> r is Handled,
            !(event is SpgEvent) && !is_interrupt_event(event) && !(event is Rtc) && !(event is AicaDMA)
                && !(event is MapleDMA) && !(event is Ch2DMA) ==> final(scheduler)@ == old(scheduler)@,
    {
        match event {
            HollyEventData::SpgEvent(e) => {
                let r_ctrl = self.framebuffer.registers.read_ctrl.raw;
                self.spg.on_scheduled_event(scheduler, r_ctrl, target, overrun, e);
                HollyEventOutcome::Handled
            },
            HollyEventData::Rtc => {
                self.aica.rtc.on_scheduled_event(scheduler);
                HollyEventOutcome::Handled
            },
            HollyEventData::RecalculateInterrupts | HollyEventData::RaiseInterruptNormal { .. }
            | HollyEventData::RaiseInterruptExternal { .. } | HollyEventData::LowerExternalInterrupt { .. } => {
                self.interrupts.on_interrupt_event(scheduler, event);
                HollyEventOutcome::Handled
            },
            HollyEventData::FrameReady(_) | HollyEventData::VBlank => HollyEventOutcome::Handled,
            HollyEventData::AicaDMA => {
                self.dma.aica_dma(&mut self.aica, ram, scheduler);
                HollyEventOutcome::Handled
            },
            HollyEventData::MapleDMA => {
                self.dma.maple_dma(&mut self.maple, ram, scheduler);
                HollyEventOutcome::Handled
            },
            HollyEventData::GdromDMA => HollyEventOutcome::Gdrom,
            HollyEventData::Ch2DMA => {
                let dst = self.dma.c2dstat;
                let words = self.dma.ch2_dma(dmac, ram, self.vram.as_mut_slice(), &mut self.texture_atlas, scheduler);
                if dst >= 0x1000_0000 && dst <= 0x10FF_FFFF {
                    HollyEventOutcome::TaWords(words)
                } else {
                    HollyEventOutcome::Handled
                }
            },
        }
    }
}

} // verus!
