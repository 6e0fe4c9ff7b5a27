use emerald_core::hw::holly::g2::aica::Aica;
use emerald_core::hw::holly::pvr::framebuffer::Framebuffer;
use emerald_core::hw::holly::pvr::texture_cache::{TextureAtlas, TextureId, TextureMetadata};
use emerald_core::hw::holly::pvr::texture_slots::{place_texture, texture_array_index, SlotChoice, TextureSlots};
use emerald_core::hw::holly::pvr::ta::{PvrPixelFmt, PvrTextureFmt};
use emerald_core::hw::holly::{Holly, HollyEventData, HollyEventOutcome, HollyWrite, SystemBlockDma};
use emerald_core::hw::sh4::dmac::Dmac;
use emerald_core::hw::sh4::bus::PhysicalAddress;
use emerald_core::hw::sh4::intc::{InterruptKind, Intc};
use emerald_core::hw::sh4::SH4EventData;
use emerald_core::run_loop::{EventAction, FrameAction, LoopState, CPU_RATIO, TIMESLICE};
use emerald_core::scheduler::{ScheduledEvent, Scheduler, SchedulerEntry};
use emerald_core::{ControllerButton, EmulatorFrontendRequest};

#[test]
fn time_slice_counts_down_and_refills() {
    let mut l = LoopState::new();
    assert_eq!(l.time_slice, TIMESLICE);
    let mut steps = 0;
    while l.slice_continues(true) {
        l.count_step();
        steps += 1;
    }
    assert_eq!(steps, TIMESLICE / CPU_RATIO);
    assert_eq!(l.total_cycles, TIMESLICE);
    assert!(!l.slice_continues(true));
    l.end_slice();
    assert_eq!(l.time_slice, TIMESLICE);
    assert!(!l.slice_continues(false));
}

#[test]
fn frontend_requests() {
    let mut l = LoopState::new();
    let mut wire = false;
    let mut s = Scheduler::new();
    l.handle_request(EmulatorFrontendRequest::ButtonPressed(ControllerButton::A), &mut wire, &mut s);
    l.handle_request(EmulatorFrontendRequest::ButtonPressed(ControllerButton::Up), &mut wire, &mut s);
    assert!(l.buttons.a && l.buttons.up && !l.buttons.x);
    l.handle_request(EmulatorFrontendRequest::ButtonReleased(ControllerButton::A), &mut wire, &mut s);
    assert!(!l.buttons.a && l.buttons.up);
    // B is not passed on
    let before = l.buttons;
    l.handle_request(EmulatorFrontendRequest::ButtonPressed(ControllerButton::B), &mut wire, &mut s);
    assert_eq!(l.buttons, before);
    l.handle_request(EmulatorFrontendRequest::ToggleWireframe, &mut wire, &mut s);
    assert!(wire);
    l.handle_request(EmulatorFrontendRequest::Pause, &mut wire, &mut s);
    assert!(s.events().is_empty());
    l.handle_request(EmulatorFrontendRequest::RenderingDone, &mut wire, &mut s);
    let evs = s.events();
    assert_eq!(evs.len(), 3);
    let mut bits: Vec<u32> = evs
        .iter()
        .map(|e| match e.event {
            ScheduledEvent::HollyEvent { event_data: HollyEventData::RaiseInterruptNormal { istnrm }, .. } => istnrm,
            _ => panic!("unexpected event"),
        })
        .collect();
    bits.sort();
    assert_eq!(bits, vec![1, 2, 4]);
}

#[test]
fn due_events_and_frames() {
    let mut l = LoopState::new();
    let mut intc = Intc::new();
    let mut fb = Framebuffer::new();
    let irl = SchedulerEntry {
        start: 0,
        event: ScheduledEvent::SH4Event { deadline: 10, event_data: SH4EventData::RaiseIRL { irl_number: InterruptKind::IRL9.index() } },
    };
    assert_eq!(l.handle_event(irl, 12, &mut intc, &mut fb), EventAction::Raised);
    assert_ne!(intc.registers().interrupt_requests, 0);

    let frame = SchedulerEntry {
        start: 100,
        event: ScheduledEvent::HollyEvent { deadline: 150, event_data: HollyEventData::FrameReady(7) },
    };
    let a = l.handle_event(frame, 160, &mut intc, &mut fb);
    assert_eq!(a, EventAction::Holly { target: 50, overrun: 10, event: HollyEventData::FrameReady(7) });
    assert!(l.send_frame);
    assert_eq!(l.dl_id, 7);
    assert_eq!(l.frame_action(&mut fb), FrameAction::Render { display_list: 7 });
    assert!(!l.send_frame);
    assert_eq!(l.frame_action(&mut fb), FrameAction::Nothing);

    let vblank = SchedulerEntry {
        start: 0,
        event: ScheduledEvent::HollyEvent { deadline: 5, event_data: HollyEventData::VBlank },
    };
    l.handle_event(vblank, 5, &mut intc, &mut fb);
    assert!(l.blit_frame);
    assert!(!fb.dirty);
    // nothing changed on screen: no blit yet
    assert_eq!(l.frame_action(&mut fb), FrameAction::Nothing);
    fb.dirty = true;
    fb.registers.read_ctrl.fb_enable = true;
    assert_eq!(l.frame_action(&mut fb), FrameAction::Blit);
    assert!(!fb.dirty && !l.blit_frame);
}

fn texture(id: u64, generation: u64, needs_upload: bool) -> TextureMetadata {
    TextureMetadata {
        id: TextureId(id),
        width: 8,
        height: 8,
        generation,
        texture_format: PvrTextureFmt::Twiddled,
        pixel_format: PvrPixelFmt::Rgb565,
        palette_addr: 0,
        data: vec![],
        dirty: false,
        needs_upload,
        addr: 0,
        end_addr: 0,
    }
}

#[test]
fn texture_eviction_and_uploads() {
    let mut atlas = TextureAtlas::new(8, 8);
    atlas.current_generation = 20000;
    atlas.textures.insert(1, texture(1, 5000, true));
    atlas.textures.insert(2, texture(2, 10001, true));
    atlas.textures.insert(3, texture(3, 19000, false));
    let threshold = atlas.evict_stale();
    assert_eq!(atlas.current_generation, 20001);
    assert_eq!(threshold, 10001);
    assert!(!atlas.textures.contains_key(&1));
    assert!(atlas.textures.contains_key(&2));
    assert!(atlas.textures.contains_key(&3));
    let ups = atlas.take_pending_uploads();
    assert_eq!(ups, vec![2]);
    assert!(!atlas.textures[&2].needs_upload);
    assert!(atlas.take_pending_uploads().is_empty());
    // a young cache keeps everything
    let mut young = TextureAtlas::new(8, 8);
    young.textures.insert(9, texture(9, 0, false));
    assert_eq!(young.evict_stale(), 0);
    assert!(young.textures.contains_key(&9));
}

#[test]
fn texture_array_slots() {
    assert_eq!(texture_array_index(8), 0);
    assert_eq!(texture_array_index(64), 3);
    assert_eq!(texture_array_index(1024), 7);
    let mut slots = TextureSlots::new(2);
    assert_eq!(slots.place(10), SlotChoice::Placed(0));
    assert_eq!(slots.place(11), SlotChoice::Placed(1));
    assert_eq!(slots.place(10), SlotChoice::Present(0));
    assert_eq!(slots.place(12), SlotChoice::Full);
    slots.remove(10);
    assert_eq!(slots.place(12), SlotChoice::Placed(0));
}

#[test]
fn recalc_keeps_pending_sources() {
    let mut intc = Intc::new();
    intc.raise_irl(InterruptKind::TUNI0.index());
    // TUNI0 to level 15: it moves up the priority order, its request with it
    intc.write_16(PhysicalAddress(0x1fd0_0004), 0xF000);
    let req = intc.registers().interrupt_requests;
    let mut found = false;
    for i in 0..41 {
        if intc.prioritized_interrupt(i) == InterruptKind::TUNI0 {
            assert_eq!((req >> i) & 1, 1);
            found = true;
        }
    }
    assert!(found);
    assert_eq!(req.count_ones(), 1);
}

#[test]
fn aica_dma_copies_and_interrupts() {
    let mut aica = Aica::new(0);
    let mut ram = vec![0u8; 64];
    for (i, b) in ram.iter_mut().enumerate() {
        *b = i as u8;
    }
    let mut sb = SystemBlockDma { ad_en: 1, ad_star: 0x0c00_0000, ad_stag: 0x0080_0000, ad_len: 8, ..SystemBlockDma::default() };
    let mut s = Scheduler::new();
    sb.aica_dma(&mut aica, &ram, &mut s);
    // two words, the second one byte on in both memories
    assert_eq!(&aica.wave_ram[0..5], &[0, 1, 2, 3, 4]);
    assert_eq!(sb.ad_len, 0);
    assert_eq!(sb.ad_star, 0x0c00_0008);
    assert_eq!(sb.ad_stag, 0x0080_0008);
    assert_eq!(s.events().len(), 2);
    // disabled: nothing happens
    let mut off = SystemBlockDma { ad_len: 8, ..SystemBlockDma::default() };
    off.aica_dma(&mut aica, &ram, &mut s);
    assert_eq!(off.ad_len, 8);
    assert_eq!(s.events().len(), 2);
}

#[test]
fn holly_dispatches_events() {
    let mut h = Holly::new(0, vec![0u8; 64]);
    let mut s = Scheduler::new();
    h.init(&mut s);
    assert_eq!(s.events().len(), 2);
    let mut dmac = Dmac::new();
    let mut ram = vec![0u8; 64];
    let t0 = h.aica.rtc.timestamp;
    let r = h.on_scheduled_event(&mut s, &mut dmac, &mut ram, 0, 0, HollyEventData::Rtc);
    assert!(matches!(r, HollyEventOutcome::Handled));
    assert_eq!(h.aica.rtc.timestamp, t0.wrapping_add(1));
    h.interrupts.iml6nrm = 0x8;
    h.on_scheduled_event(&mut s, &mut dmac, &mut ram, 0, 0, HollyEventData::RaiseInterruptNormal { istnrm: 0x8 });
    assert_eq!(h.interrupts.istnrm, 0x8);
    assert!(matches!(
        h.on_scheduled_event(&mut s, &mut dmac, &mut ram, 0, 0, HollyEventData::GdromDMA),
        HollyEventOutcome::Gdrom
    ));
}

#[test]
fn channel2_dma_to_textures_and_ta() {
    let mut dma = SystemBlockDma { c2dstat: 0x1100_0010, c2dlen: 8, lmmode0: 0, ..SystemBlockDma::default() };
    let mut dmac = Dmac::new();
    dmac.registers.sar2 = 0x0c00_0004;
    dmac.registers.chcr2 = 0x5;
    let ram: Vec<u8> = (0u8..32).collect();
    let mut vram = vec![0u8; 64];
    let mut atlas = TextureAtlas::new(8, 8);
    let mut s = Scheduler::new();
    let words = dma.ch2_dma(&mut dmac, &ram, &mut vram, &mut atlas, &mut s);
    assert!(words.is_empty());
    assert_eq!(&vram[0x10..0x18], &[4, 5, 6, 7, 8, 9, 10, 11]);
    assert_eq!(dma.c2dstat, 0x1100_0018);
    assert_eq!(dma.c2dlen, 0);
    assert_eq!(dmac.registers.dar2, 0x1100_0010);
    assert_eq!(dmac.registers.sar2, 0x0c00_000c);
    assert_eq!(dmac.registers.chcr2, 0x4);
    assert_eq!(s.events().len(), 1);

    let mut to_ta = SystemBlockDma { c2dstat: 0x1000_0000, c2dlen: 8, ..SystemBlockDma::default() };
    dmac.registers.sar2 = 0;
    let words = to_ta.ch2_dma(&mut dmac, &ram, &mut vram, &mut atlas, &mut s);
    assert_eq!(words, vec![0x0302_0100, 0x0706_0504]);
    assert_eq!(to_ta.c2dstat, 0x1000_0000);
}

#[test]
fn holly_register_writes() {
    let mut h = Holly::new(0, vec![0u8; 16]);
    let mut s = Scheduler::new();
    assert_eq!(h.write_32(PhysicalAddress(0x005f8040), 0x1234, &mut s), HollyWrite::Done);
    assert_eq!(h.registers.border_col, 0x1234);
    h.write_32(PhysicalAddress(0x005f8204), 7, &mut s);
    assert_eq!(h.registers.fog_table[1], 7);
    h.write_32(PhysicalAddress(0x005f8044), 0xFFFF_FFFF, &mut s);
    assert_eq!(h.framebuffer.registers.read_ctrl.raw, 0x00FF_FF7F);
    assert!(h.framebuffer.registers.read_ctrl.fb_enable);
    h.write_32(PhysicalAddress(0x005f8020), 0x40, &mut s);
    assert_eq!(h.pvr.registers.param_base, 0x40);
    h.write_32(PhysicalAddress(0x005f8014), 1, &mut s);
    assert_eq!(s.events().len(), 1);
    assert_eq!(
        s.events()[0].event,
        ScheduledEvent::HollyEvent { deadline: 0, event_data: HollyEventData::FrameReady(0x40) }
    );
    h.write_32(PhysicalAddress(0x005f80d0), 0x10, &mut s);
    assert!(h.framebuffer.interlaced);
    assert_eq!(h.registers.sync_cfg, 0x10);
    // TA_LIST_INIT resets the list pointers unless continuing
    h.registers.ta_next_opb_init = 0x99;
    h.registers.ta_isp_base = 0x77;
    h.write_32(PhysicalAddress(0x005f8144), 0x8000_0000, &mut s);
    assert_eq!(h.registers.ta_next_opb, 0x99);
    assert_eq!(h.registers.ta_itp_current, 0x77);
    assert_eq!(h.write_32(PhysicalAddress(0x005f7018), 1, &mut s), HollyWrite::Gdrom);
    assert_eq!(h.write_32(PhysicalAddress(0x005f6900), 1, &mut s), HollyWrite::SystemBlock);
    h.write_32(PhysicalAddress(0x0080_0000), 0x0403_0201, &mut s);
    assert_eq!(&h.aica.wave_ram[0..4], &[1, 2, 3, 4]);
}

#[test]
fn textures_go_to_the_array_of_their_larger_side() {
    let mut arrays: Vec<TextureSlots> = (0..8).map(|_| TextureSlots::new(2)).collect();
    assert_eq!(place_texture(&mut arrays, 32, 64, 5), (3, SlotChoice::Placed(0)));
    assert_eq!(place_texture(&mut arrays, 64, 8, 6), (3, SlotChoice::Placed(1)));
    assert_eq!(place_texture(&mut arrays, 64, 64, 5), (3, SlotChoice::Present(0)));
    assert_eq!(place_texture(&mut arrays, 8, 8, 7), (0, SlotChoice::Placed(0)));
    assert_eq!(arrays[1].layers, vec![None, None]);
}
