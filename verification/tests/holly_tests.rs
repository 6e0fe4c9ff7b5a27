use emerald_core::hw::holly::maple::{Maple, MapleFrame};
use emerald_core::hw::holly::pvr::framebuffer::{FbReadCtrl, FbSize, Framebuffer};
use emerald_core::hw::holly::pvr::ta::{
    ParameterControlWord, ParameterType, PvrListType, PvrPixelFmt, PvrTextureFmt, TextureControlWord, VertexType,
};
use emerald_core::hw::holly::pvr::texture_cache::{Texture, TextureAtlas};
use emerald_core::hw::holly::pvr::{Pvr, TaPush};
use emerald_core::hw::holly::{HollyEventData, SystemBlockInterrupts};
use emerald_core::hw::sh4::SH4EventData;
use emerald_core::hw::sh4::bus::PhysicalAddress;
use emerald_core::scheduler::{ScheduledEvent, Scheduler};

#[test]
fn texture_control_word_fields() {
    // pixel format 1 (RGB565), twiddled, address 0x1000 (in 8-byte units)
    let w = TextureControlWord::new((1 << 27) | (0x1000 >> 3));
    assert_eq!(w.pixel_fmt(), PvrPixelFmt::Rgb565);
    assert_eq!(w.texture_addr(), 0x200);
    assert!(!w.vq_compressed());
    assert!(!w.mip_mapped());
    assert_eq!(w.texture_fmt(), PvrTextureFmt::Twiddled);
}

#[test]
fn parameter_control_word_fields() {
    // a polygon (type 4) in the translucent list (2), textured, packed colour
    let pcw = ParameterControlWord::new((4 << 29) | (2 << 24) | 0x8);
    assert_eq!(pcw.para_type(), ParameterType::PolyOrVol);
    assert_eq!(pcw.list_type(), PvrListType::Translucent);
    assert!(pcw.texture());
    assert_eq!(pcw.vert_type(), VertexType::Type3);
    assert_eq!(pcw.expected_words(VertexType::Type3), 1);
    assert_eq!(pcw.expected_words(VertexType::Type5), 2);
}

#[test]
fn framebuffer_renders_rgb565() {
    let mut fb = Framebuffer::new();
    fb.registers.read_ctrl = FbReadCtrl::from_raw(1 << 2);
    fb.registers.read_size = FbSize::from_raw(1 | (1 << 10) | (1 << 20));
    fb.registers.base_address = 0;
    let mut vram = vec![0u8; 4096];
    vram[0] = 0x00;
    vram[1] = 0xF8;
    let (pixels, w, h) = fb.render_framebuffer(&vram);
    assert_eq!((w, h), (4, 480));
    assert_eq!(pixels.len(), 4 * 480 * 4);
    assert_eq!(&pixels[0..4], &[0x00, 0x00, 0xF8, 0xFF]);
    assert_eq!(&pixels[4..8], &[0x00, 0x00, 0x00, 0xFF]);
}

#[test]
fn framebuffer_watch_marks_dirty() {
    let mut fb = Framebuffer::new();
    fb.registers.read_size = FbSize::from_raw(1 | (1 << 10) | (1 << 20));
    fb.registers.base_address = 0x100;
    fb.registers.base_address2 = 0x100;
    fb.invalidate_watches();
    assert_eq!((fb.watch_start, fb.watch_end), (0x100, 0x100 + 16));
    fb.notify_write(0x50, 1);
    assert!(!fb.dirty);
    fb.notify_write(0x0080_0104, 1);
    assert!(fb.dirty);
    assert_eq!(fb.get_parameters(), (0x100, 16));
}

#[test]
fn texture_upload_converts_rgb565() {
    let mut atlas = TextureAtlas::new(16, 16);
    let mut vram = vec![0u8; 256];
    let mut pram = vec![0u8; 16];
    vram[0] = 0x00;
    vram[1] = 0xF8;
    let t = Texture { width: 2, height: 2, addr: 0, palette_addr: 0 };
    let id = atlas
        .upload_texture(t, &mut vram, &mut pram, PvrTextureFmt::Bitmap, PvrPixelFmt::Rgb565)
        .unwrap();
    assert_eq!(id.0, TextureAtlas::hash_texture(&t, PvrTextureFmt::Bitmap, PvrPixelFmt::Rgb565));
    let entry = atlas.textures.get(&id.0).unwrap();
    assert!(!entry.dirty);
    assert!(entry.needs_upload);
    assert_eq!(entry.data.len(), 16);
    assert_eq!(&entry.data[0..4], &[0x00, 0x00, 0xFF, 0xFF]);
    assert_eq!(&entry.data[4..8], &[0x00, 0x00, 0x00, 0xFF]);
    // a write inside the texture marks it for conversion again
    atlas.notify_write(1);
    assert!(atlas.textures.get(&id.0).unwrap().dirty);
    vram[1] = 0x07;
    vram[0] = 0xE0;
    atlas.realize_texture(id, &mut vram, &mut pram);
    let entry = atlas.textures.get(&id.0).unwrap();
    assert!(!entry.dirty);
    assert_eq!(&entry.data[0..4], &[0x00, 0xFF, 0x00, 0xFF]);
}

#[test]
fn texture_identity_depends_on_the_parameters() {
    let a = Texture { width: 8, height: 8, addr: 0x100, palette_addr: 0 };
    let b = Texture { width: 8, height: 8, addr: 0x200, palette_addr: 0 };
    let ha = TextureAtlas::hash_texture(&a, PvrTextureFmt::Twiddled, PvrPixelFmt::Argb4444);
    assert_eq!(ha, TextureAtlas::hash_texture(&a, PvrTextureFmt::Twiddled, PvrPixelFmt::Argb4444));
    assert_ne!(ha, TextureAtlas::hash_texture(&b, PvrTextureFmt::Twiddled, PvrPixelFmt::Argb4444));
    assert_eq!(PvrTextureFmt::from_u32(PvrTextureFmt::Bitmap.to_u32()), PvrTextureFmt::Bitmap);
    assert_eq!(PvrPixelFmt::from_u32(PvrPixelFmt::EightBpp.to_u32()), PvrPixelFmt::EightBpp);
}

#[test]
fn ta_parameters_go_to_the_open_list() {
    let mut pvr = Pvr::new();
    let mut s = Scheduler::new();
    let mut vram = vec![0u8; 16];
    // a polygon parameter for the opaque list: eight words
    let pcw: u32 = 4 << 29;
    let mut last = None;
    for i in 0..8u32 {
        let word = if i == 0 { pcw } else { i };
        let a = pvr.receive_ta_data(&mut s, PhysicalAddress(0x1000_0000), word, &mut vram);
        if i < 7 {
            assert!(a.reset.is_none() && a.push.is_none());
        } else {
            last = Some(a);
        }
    }
    let a = last.unwrap();
    assert_eq!(a.reset, Some(0));
    match a.push {
        Some(TaPush::Poly { list, words }) => {
            assert_eq!(list, 0);
            assert_eq!(words, [pcw, 1, 2, 3, 4, 5, 6, 7]);
        },
        _ => panic!("expected a polygon"),
    }
    assert_eq!(pvr.parameter_cursor, 0);
    // an end-of-list parameter closes the list and schedules its interrupt
    for i in 0..8u32 {
        let _ = i;
        pvr.receive_ta_data(&mut s, PhysicalAddress(0x1000_0000), 0, &mut vram);
    }
    assert_eq!(s.events().len(), 1);
    assert_eq!(
        s.events()[0].event,
        ScheduledEvent::HollyEvent { deadline: 200, event_data: HollyEventData::RaiseInterruptNormal { istnrm: 0x80 } }
    );
}

#[test]
fn ta_direct_path_writes_video_memory() {
    let mut pvr = Pvr::new();
    let mut s = Scheduler::new();
    let mut vram = vec![0u8; 16];
    let a = pvr.receive_ta_data(&mut s, PhysicalAddress(0x1100_0004), 0x4433_2211, &mut vram);
    assert!(a.reset.is_none() && a.push.is_none());
    assert_eq!(&vram[4..8], &[0x11, 0x22, 0x33, 0x44]);
    assert_eq!(pvr.parameter_cursor, 0);
}

#[test]
fn background_vertices_are_read_from_the_tag() {
    let mut pvr = Pvr::new();
    // tag address 2 words, offset 0, skip 0
    pvr.registers.isp_backgnd_t = 2 << 3;
    pvr.registers.param_base = 0;
    let mut vram = vec![0u8; 128];
    // the first vertex starts at 4 * 2 + 12 = 20
    vram[20] = 1;
    vram[24] = 2;
    vram[32] = 3;
    vram[36] = 4;
    let v = pvr.bg_vertex_words(&vram);
    assert_eq!(v[0], [1, 2, 3]);
    assert_eq!(v[1], [4, 0, 0]);
}

#[test]
fn maple_answers_a_device_request() {
    let mut maple = Maple::new();
    let mut s = Scheduler::new();
    let mut ram = vec![0u8; 4096];
    // header: pattern 0, length 0, last entry
    ram[0..4].copy_from_slice(&0x8000_0000u32.to_le_bytes());
    // receive address 0x0c000100
    ram[4..8].copy_from_slice(&0x0c00_0100u32.to_le_bytes());
    // frame: command 1 (device info) from source 0x20
    ram[8] = 1;
    ram[9] = 0x20;
    ram[10] = 0x20;
    ram[11] = 0;
    maple.perform_maple_transfer(0, &mut s, &mut ram);
    assert_eq!(&ram[0x100..0x104], &[0x05, 0x20, 0x21, 28]);
    // the function code, big endian: the controller function
    assert_eq!(&ram[0x104..0x108], &[0x00, 0x00, 0x00, 0x01]);
    assert_eq!(&ram[0x104 + 18..0x104 + 38], b"Dreamcast Controller");
    assert_eq!(ram[0x104 + 38], 0x20);
    assert_eq!(ram[0x104 + 108], 0xae);
    assert_eq!(ram[0x104 + 112], 0);
    assert_eq!(s.events().len(), 1);
    assert_eq!(
        s.events()[0].event,
        ScheduledEvent::HollyEvent { deadline: 200, event_data: HollyEventData::RaiseInterruptNormal { istnrm: 0x1000 } }
    );
}

#[test]
fn maple_condition_request_answers_zeros() {
    let mut maple = Maple::new();
    let tx = MapleFrame { cmd: 9, dest_addr: 0x20, source_addr: 0, length: 1, data: [0; 255] };
    let mut rx = MapleFrame { cmd: 8, dest_addr: 0, source_addr: 0x21, length: 28, data: [7; 255] };
    maple.process_maple_frame(&tx, &mut rx);
    assert_eq!(rx.data, [7; 255]);
    let tx = MapleFrame { cmd: 1, ..tx };
    maple.process_maple_frame(&tx, &mut rx);
    assert_eq!(rx.data[0], 0x0100_0000);
    assert_eq!(rx.data[28], 7);
}

#[test]
fn holly_raises_the_highest_unmasked_level() {
    let mut sb = SystemBlockInterrupts::default();
    let mut s = Scheduler::new();
    // nothing pending: nothing raised
    sb.dispatch_sh4_interrupt(&mut s);
    assert!(s.events().is_empty());
    // a normal interrupt routed to level 4 and level 2: level 4 wins (IRL11)
    sb.istnrm = 0x80;
    sb.iml4nrm = 0x80;
    sb.iml2nrm = 0x80;
    assert_eq!(sb.interrupt_line(), 12);
    sb.dispatch_sh4_interrupt(&mut s);
    assert_eq!(s.events().len(), 1);
    assert_eq!(
        s.events()[0].event,
        ScheduledEvent::SH4Event { deadline: 0, event_data: SH4EventData::RaiseIRL { irl_number: 12 } }
    );
    // an error routed to level 6 wins over both (IRL9)
    sb.isterr = 1;
    sb.iml6err = 1;
    assert_eq!(sb.interrupt_line(), 10);
    // an external one routed to level 2 only (IRL13)
    let only2 = SystemBlockInterrupts { istext: 4, iml2ext: 4, ..SystemBlockInterrupts::default() };
    assert_eq!(only2.interrupt_line(), 14);
}

#[test]
fn interrupt_events_set_and_clear_statuses() {
    let mut sb = SystemBlockInterrupts { iml2ext: 0x2, iml6nrm: 0x8000, ..SystemBlockInterrupts::default() };
    let mut s = Scheduler::new();
    sb.on_interrupt_event(&mut s, HollyEventData::RaiseInterruptExternal { istext: 0x2 });
    assert_eq!(sb.istext, 0x2);
    assert_eq!(s.events().len(), 1);
    assert_eq!(
        s.events()[0].event,
        ScheduledEvent::SH4Event { deadline: 0, event_data: SH4EventData::RaiseIRL { irl_number: 14 } }
    );
    sb.on_interrupt_event(&mut s, HollyEventData::LowerExternalInterrupt { istext: 0x2 });
    assert_eq!(sb.istext, 0);
    assert_eq!(s.events().len(), 1);
    sb.on_interrupt_event(&mut s, HollyEventData::RaiseInterruptNormal { istnrm: 0x8000 });
    assert_eq!(sb.istnrm, 0x8000);
    assert_eq!(sb.interrupt_line(), 10);
    sb.on_interrupt_event(&mut s, HollyEventData::RecalculateInterrupts);
    assert_eq!(sb.istnrm, 0x8000);
}
