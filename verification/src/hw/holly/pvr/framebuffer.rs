//! The framebuffer read-out registers and the conversion of the visible
//! framebuffer in video memory to RGBA8888 pixels.
use super::texture_cache::{argb1555, lemma_channel_fields, rgb565};
use vstd::prelude::*;

verus! {

/// The FB_R_STRIDE register.
#[derive(Copy, Clone, Debug, Default)]
pub struct FbLineStride {
    pub fb_line_stride: u32,
    pub raw: u32,
}

impl FbLineStride {
    pub fn new() -> (r: Self)
        ensures
            r.fb_line_stride == 0 && r.raw == 0,
    {
        FbLineStride { fb_line_stride: 0, raw: 0 }
    }

    /// Decodes a raw register value.
    pub fn from_raw(data: u32) -> (r: Self)
        ensures
            r.fb_line_stride == data & 0x1ff,
            r.raw == data,
    {
        FbLineStride { fb_line_stride: data & 0x1ff, raw: data }
    }
}

/// The colour depth of the framebuffer being read out.
#[derive(Debug, Clone, Copy, PartialEq, Eq, Structural)]
#[allow(non_camel_case_types)]
pub enum FramebufferDepth {
    /// 0555, the low three bits from `fb_concat`.
    Fbde_0555,
    /// 565, the low three bits from `fb_concat` (two for green).
    Fbde_565,
    /// 888, packed.
    Fbde_888,
    /// C888, the top byte for chroma.
    Fbde_C888,
}

impl FramebufferDepth {
    /// The number of the depth in FB_R_CTRL.
    pub open spec fn code(self) -> u32 {
        match self {
            FramebufferDepth::Fbde_0555 => 0,
            FramebufferDepth::Fbde_565 => 1,
            FramebufferDepth::Fbde_888 => 2,
            FramebufferDepth::Fbde_C888 => 3,
        }
    }

    /// The depth with the given number.
    pub fn from_u32(data: u32) -> (r: Self)
        requires
            data <= 3,
        ensures
            r.code() == data,
    {
        match data {
            0 => FramebufferDepth::Fbde_0555,
            1 => FramebufferDepth::Fbde_565,
            2 => FramebufferDepth::Fbde_888,
            _ => FramebufferDepth::Fbde_C888,
        }
    }
}

/// The FB_Y_CLIP register.
#[derive(Copy, Clone, Debug, Default)]
pub struct FbYClip {
    pub fb_y_clip_max: u32,
    pub fb_y_clip_min: u32,
    pub raw: u32,
}

impl FbYClip {
    pub fn new() -> (r: Self)
        ensures
            r.fb_y_clip_max == 0 && r.fb_y_clip_min == 0 && r.raw == 0,
    {
        FbYClip { fb_y_clip_max: 0, fb_y_clip_min: 0, raw: 0 }
    }

    /// Decodes a raw register value.
    pub fn from_raw(data: u32) -> (r: Self)
        ensures
            r == y_clip_of(data),
            r.fb_y_clip_max == (data >> 16u32) & 0x3f,
            r.fb_y_clip_min == data & 0x3ff,
            r.raw == data,
    {
        FbYClip { fb_y_clip_max: (data >> 16u32) & 0x3f, fb_y_clip_min: data & 0x3ff, raw: data }
    }
}

/// The FB_X_CLIP register.
#[derive(Copy, Clone, Debug, Default)]
pub struct FbXClip {
    pub fb_x_clip_max: u32,
    pub fb_x_clip_min: u32,
    pub raw: u32,
}

impl FbXClip {
    pub fn new() -> (r: Self)
        ensures
            r.fb_x_clip_max == 0 && r.fb_x_clip_min == 0 && r.raw == 0,
    {
        FbXClip { fb_x_clip_max: 0, fb_x_clip_min: 0, raw: 0 }
    }

    /// Decodes a raw register value.
    pub fn from_raw(data: u32) -> (r: Self)
        ensures
            r == x_clip_of(data),
            r.fb_x_clip_max == (data >> 16u32) & 0x1f,
            r.fb_x_clip_min == data & 0x7ff,
            r.raw == data,
    {
        FbXClip { fb_x_clip_max: (data >> 16u32) & 0x1f, fb_x_clip_min: data & 0x7ff, raw: data }
    }
}

/// The FB_R_SIZE register.
#[derive(Copy, Clone, Debug, Default)]
pub struct FbSize {
    pub x_size: u32,
    pub y_size: u32,
    pub modulus: u32,
    pub raw: u32,
}

impl FbSize {
    pub fn new() -> (r: Self)
        ensures
            r.x_size == 0 && r.y_size == 0 && r.modulus == 0 && r.raw == 0,
    {
        FbSize { x_size: 0, y_size: 0, modulus: 0, raw: 0 }
    }

    /// Decodes a raw register value.
    pub fn from_raw(data: u32) -> (r: Self)
        ensures
            r == fb_size_of(data),
            r.x_size == data & 0x3ff,
            r.y_size == (data >> 10u32) & 0x3ff,
            r.modulus == (data >> 20u32) & 0x3,
            r.raw == data,
    {
        FbSize {
            x_size: data & 0x3ff,
            y_size: (data >> 10u32) & 0x3ff,
            modulus: (data >> 20u32) & 0x3,
            raw: data,
        }
    }
}

/// FB_W_CTRL decoded from `data`.
pub open spec fn write_ctrl_of(data: u32) -> FbWriteCtrl {
    FbWriteCtrl {
        fb_alpha_threshold: (data >> 16u32) & 0xff,
        fb_kval: (data >> 8u32) & 0xff,
        fb_dither: (data >> 4u32) & 0xf,
        fb_packmode: data & 0xf,
        raw: data,
    }
}

/// FB_R_CTRL decoded from `data`.
pub open spec fn read_ctrl_of(data: u32) -> FbReadCtrl {
    FbReadCtrl {
        vclk_div: ((data >> 24u32) & 0xff) as u8,
        fb_strip_buf_en: ((data >> 23u32) & 0x1) != 0,
        fb_strip_size: ((data >> 16u32) & 0x3f) as u8,
        fb_chroma_threshold: ((data >> 8u32) & 0xff) as u8,
        reserved: ((data >> 7u32) & 0x1) as u8,
        fb_concat: ((data >> 4u32) & 0x7) as u8,
        fb_depth: ((data >> 2u32) & 0x3) as u8,
        fb_line_double: ((data >> 1u32) & 0x1) != 0,
        fb_enable: (data & 0x1) != 0,
        raw: data,
    }
}

/// FB_R_SIZE decoded from `data`.
pub open spec fn fb_size_of(data: u32) -> FbSize {
    FbSize { x_size: data & 0x3ff, y_size: (data >> 10u32) & 0x3ff, modulus: (data >> 20u32) & 0x3, raw: data }
}

/// FB_X_CLIP decoded from `data`.
pub open spec fn x_clip_of(data: u32) -> FbXClip {
    FbXClip { fb_x_clip_max: (data >> 16u32) & 0x1f, fb_x_clip_min: data & 0x7ff, raw: data }
}

/// FB_Y_CLIP decoded from `data`.
pub open spec fn y_clip_of(data: u32) -> FbYClip {
    FbYClip { fb_y_clip_max: (data >> 16u32) & 0x3f, fb_y_clip_min: data & 0x3ff, raw: data }
}

/// The FB_W_CTRL register.
#[derive(Copy, Clone, Debug, Default)]
pub struct FbWriteCtrl {
    pub fb_alpha_threshold: u32,
    pub fb_kval: u32,
    pub fb_dither: u32,
    pub fb_packmode: u32,
    pub raw: u32,
}

impl FbWriteCtrl {
    pub fn new() -> (r: Self)
        ensures
            r.fb_alpha_threshold == 0 && r.fb_kval == 0 && r.fb_dither == 0 && r.fb_packmode == 0
                && r.raw == 0,
    {
        FbWriteCtrl { fb_alpha_threshold: 0, fb_kval: 0, fb_dither: 0, fb_packmode: 0, raw: 0 }
    }

    /// Decodes a raw register value.
    pub fn from_raw(data: u32) -> (r: Self)
        ensures
            r == write_ctrl_of(data),
            r.fb_alpha_threshold == (data >> 16u32) & 0xff,
            r.fb_kval == (data >> 8u32) & 0xff,
            r.fb_dither == (data >> 4u32) & 0xf,
            r.fb_packmode == data & 0xf,
            r.raw == data,
    {
        FbWriteCtrl {
            fb_alpha_threshold: (data >> 16u32) & 0xff,
            fb_kval: (data >> 8u32) & 0xff,
            fb_dither: (data >> 4u32) & 0xf,
            fb_packmode: data & 0xf,
            raw: data,
        }
    }
}

/// The FB_R_CTRL register.
#[derive(Copy, Clone, Debug, Default)]
pub struct FbReadCtrl {
    pub vclk_div: u8,
    pub fb_strip_buf_en: bool,
    pub fb_strip_size: u8,
    pub fb_chroma_threshold: u8,
    pub reserved: u8,
    pub fb_concat: u8,
    pub fb_depth: u8,
    pub fb_line_double: bool,
    pub fb_enable: bool,
    pub raw: u32,
}

proof fn lemma_register_fields(data: u32)
    by (bit_vector)
    ensures
        (data >> 24u32) & 0xff <= 0xff,
        (data >> 16u32) & 0x3f <= 0x3f,
        (data >> 8u32) & 0xff <= 0xff,
        (data >> 7u32) & 0x1 <= 1,
        (data >> 4u32) & 0x7 <= 7,
        (data >> 2u32) & 0x3 <= 3,
        data & 0x3ff <= 0x3ff,
        (data >> 10u32) & 0x3ff <= 0x3ff,
        (data >> 20u32) & 0x3 <= 3,
{
}

impl FbReadCtrl {
    pub fn new() -> (r: Self)
        ensures
            r.vclk_div == 0 && !r.fb_strip_buf_en && r.fb_strip_size == 0 && r.fb_chroma_threshold == 0
                && r.reserved == 0 && r.fb_concat == 0 && r.fb_depth == 0 && !r.fb_line_double
                && !r.fb_enable && r.raw == 0,
    {
        FbReadCtrl {
            vclk_div: 0,
            fb_strip_buf_en: false,
            fb_strip_size: 0,
            fb_chroma_threshold: 0,
            reserved: 0,
            fb_concat: 0,
            fb_depth: 0,
            fb_line_double: false,
            fb_enable: false,
            raw: 0,
        }
    }

    /// Decodes a raw register value.
    pub fn from_raw(data: u32) -> (r: Self)
        ensures
            r == read_ctrl_of(data),
            r.vclk_div == (data >> 24u32) & 0xff,
            r.fb_strip_buf_en == ((data >> 23u32) & 0x1 != 0),
            r.fb_strip_size == (data >> 16u32) & 0x3f,
            r.fb_chroma_threshold == (data >> 8u32) & 0xff,
            r.reserved == (data >> 7u32) & 0x1,
            r.fb_concat == (data >> 4u32) & 0x7,
            r.fb_depth == (data >> 2u32) & 0x3,
            r.fb_line_double == ((data >> 1u32) & 0x1 != 0),
            r.fb_enable == (data & 0x1 != 0),
            r.raw == data,
    {
        proof { lemma_register_fields(data); }
        FbReadCtrl {
            vclk_div: ((data >> 24u32) & 0xff) as u8,
            fb_strip_buf_en: ((data >> 23u32) & 0x1) != 0,
            fb_strip_size: ((data >> 16u32) & 0x3f) as u8,
            fb_chroma_threshold: ((data >> 8u32) & 0xff) as u8,
            reserved: ((data >> 7u32) & 0x1) as u8,
            fb_concat: ((data >> 4u32) & 0x7) as u8,
            fb_depth: ((data >> 2u32) & 0x3) as u8,
            fb_line_double: ((data >> 1u32) & 0x1) != 0,
            fb_enable: (data & 0x1) != 0,
            raw: data,
        }
    }
}

impl FbSize {
    /// The decoded fields agree with the raw word, as `from_raw` makes them.
    pub open spec fn decodes(self) -> bool {
        &&& self.x_size == self.raw & 0x3ff
        &&& self.y_size == (self.raw >> 10u32) & 0x3ff
        &&& self.modulus == (self.raw >> 20u32) & 0x3
    }
}

impl FbReadCtrl {
    /// The decoded fields agree with the raw word, as `from_raw` makes them.
    pub open spec fn decodes(self) -> bool {
        &&& self.vclk_div == (self.raw >> 24u32) & 0xff
        &&& self.fb_strip_buf_en == ((self.raw >> 23u32) & 0x1 != 0)
        &&& self.fb_strip_size == (self.raw >> 16u32) & 0x3f
        &&& self.fb_chroma_threshold == (self.raw >> 8u32) & 0xff
        &&& self.reserved == (self.raw >> 7u32) & 0x1
        &&& self.fb_concat == (self.raw >> 4u32) & 0x7
        &&& self.fb_depth == (self.raw >> 2u32) & 0x3
        &&& self.fb_line_double == ((self.raw >> 1u32) & 0x1 != 0)
        &&& self.fb_enable == (self.raw & 0x1 != 0)
    }
}

proof fn lemma_decoded_bounds(size: FbSize, ctrl: FbReadCtrl)
    requires
        size.decodes(),
        ctrl.decodes(),
    ensures
        size.x_size <= 0x3ff,
        size.y_size <= 0x3ff,
        size.modulus <= 3,
        ctrl.fb_concat <= 7,
        ctrl.fb_depth <= 3,
{
    lemma_register_fields(size.raw);
    lemma_register_fields(ctrl.raw);
}

/// The framebuffer read-out registers.
#[derive(Copy, Clone, Debug)]
pub struct FramebufferRegisters {
    pub read_ctrl: FbReadCtrl,
    pub write_ctrl: FbWriteCtrl,
    pub read_size: FbSize,
    pub base_address: u32,
    pub base_address2: u32,
    pub x_clip: FbXClip,
    pub y_clip: FbYClip,
    pub line_stride: FbLineStride,
}

impl Default for FramebufferRegisters {
    fn default() -> (r: Self)
        ensures
            r.read_ctrl.raw == 0x005F8044 && r.read_ctrl.decodes(),
            r.read_size.raw == 0x00177e7f && r.read_size.decodes(),
            r.write_ctrl.raw == 0x005F8048,
            r.base_address == 0x005F8050,
            r.base_address2 == 0x005F8050,
            r.x_clip.raw == 0x005F8068,
            r.y_clip.raw == 0x005F806C,
            r.line_stride.raw == 0x005F804C,
    {
        FramebufferRegisters {
            read_ctrl: FbReadCtrl::from_raw(0x005F8044),
            read_size: FbSize::from_raw(0x00177e7f),
            write_ctrl: FbWriteCtrl::from_raw(0x005F8048),
            base_address: 0x005F8050,
            base_address2: 0x005F8050,
            x_clip: FbXClip::from_raw(0x005F8068),
            y_clip: FbYClip::from_raw(0x005F806C),
            line_stride: FbLineStride::from_raw(0x005F804C),
        }
    }
}

/// The size of video memory is 8 MiB; addresses wrap at this mask.
pub const VRAM_MASK: u32 = 0x7F_FFFF;

/// The bytes a read-out of the framebuffer covers.
pub open spec fn fb_read_bytes(regs: FramebufferRegisters) -> int {
    (regs.read_size.x_size + regs.read_size.modulus) * (regs.read_size.y_size + 1) * 4
}

impl FramebufferRegisters {
    /// Bytes per pixel of the framebuffer.
    pub open spec fn fb_bpp(self) -> u32 {
        let depth = self.read_ctrl.fb_depth;
        if depth <= 1 { 2 } else if depth == 2 { 3 } else { 4 }
    }

    /// Width of the picture in pixels.
    pub open spec fn fb_width(self) -> u32 {
        let depth = self.read_ctrl.fb_depth;
        let w = ((self.read_size.x_size + 1) * 2) as u32;
        if depth <= 1 { w } else if depth == 2 { ((w * 2) / 3) as u32 } else { w / 2 }
    }

    /// Pixels skipped at the end of every line.
    pub open spec fn fb_skip(self) -> u32 {
        let depth = self.read_ctrl.fb_depth;
        let m = ((self.read_size.modulus - 1) * 2) as u32;
        if depth <= 1 { m } else if depth == 2 { ((m * 2) / 3) as u32 } else { m / 2 }
    }

    /// Bytes from the start of one line to the start of the next.
    pub open spec fn fb_stride(self) -> int {
        (self.fb_width() + self.fb_skip()) * self.fb_bpp()
    }

    /// Address of the last pixel read.
    pub open spec fn fb_last_addr(self) -> int {
        self.base_address + 479 * self.fb_stride() + (self.fb_width() - 1) * self.fb_bpp()
    }

    /// The last byte of video memory that the read-out touches.
    pub open spec fn fb_last_byte(self) -> int {
        let last = self.fb_last_addr();
        let bpp = self.fb_bpp();
        if bpp == 2 {
            last + 1
        } else if bpp == 3 && last % 2 == 1 {
            last + 2
        } else {
            last + 3
        }
    }
}

/// A little-endian 16-bit value from two bytes of video memory.
pub open spec fn fb_src16(vram: Seq<u8>, a: int) -> u16 {
    (vram[a] as u16) | ((vram[a + 1] as u16) << 8u16)
}

/// The RGBA8888 pixel read from video memory at address `a`.
pub open spec fn fb_pixel(vram: Seq<u8>, depth: u8, concat: u8, a: int) -> Seq<u8> {
    if depth == 0 {
        let s = fb_src16(vram, a);
        seq![
            ((((s >> 0u16) & 0x1F) << 3u16) + concat) as u8,
            ((((s >> 5u16) & 0x1F) << 3u16) + concat) as u8,
            ((((s >> 10u16) & 0x1F) << 3u16) + concat) as u8,
            0xFFu8,
        ]
    } else if depth == 1 {
        let s = fb_src16(vram, a);
        seq![
            ((((s >> 0u16) & 0x1F) << 3u16) + concat) as u8,
            ((((s >> 5u16) & 0x3F) << 2u16) + (concat >> 1u8)) as u8,
            ((((s >> 11u16) & 0x1F) << 3u16) + concat) as u8,
            0xFFu8,
        ]
    } else if depth == 2 {
        if a % 2 == 1 {
            seq![vram[a + 1], vram[a], vram[a - 1], 0xFFu8]
        } else {
            seq![vram[a + 3], vram[a + 2], vram[a + 1], 0xFFu8]
        }
    } else {
        seq![vram[a], vram[a + 1], vram[a + 2], 0xFFu8]
    }
}

/// The first `n` pixels of the line starting at address `start`.
pub open spec fn fb_row(vram: Seq<u8>, regs: FramebufferRegisters, start: int, n: nat) -> Seq<u8>
    decreases n,
{
    if n == 0 {
        seq![]
    } else {
        fb_row(vram, regs, start, (n - 1) as nat) + fb_pixel(
            vram,
            regs.read_ctrl.fb_depth,
            regs.read_ctrl.fb_concat,
            start + (n - 1) * regs.fb_bpp(),
        )
    }
}

/// The first `rows` lines of the picture.
pub open spec fn fb_image(vram: Seq<u8>, regs: FramebufferRegisters, rows: nat) -> Seq<u8>
    decreases rows,
{
    if rows == 0 {
        seq![]
    } else {
        fb_image(vram, regs, (rows - 1) as nat) + fb_row(
            vram,
            regs,
            regs.base_address + (rows - 1) * regs.fb_stride(),
            regs.fb_width() as nat,
        )
    }
}

proof fn lemma_fb_addr_bound(stride: int, bpp: int, width: int, skip: int, row: int, col: int)
    requires
        stride == (width + skip) * bpp,
        0 <= row < 480,
        0 <= col < width,
        bpp > 0,
        skip >= 0,
    ensures
        row * stride + col * bpp <= 479 * stride + (width - 1) * bpp,
        row * stride + col * bpp < 479 * stride + (width - 1) * bpp ==> row * stride + col * bpp
            + bpp <= 479 * stride + (width - 1) * bpp,
{
    let k = (479 - row) * (width + skip) + (width - 1 - col);
    assert(479 * stride + (width - 1) * bpp - (row * stride + col * bpp) == bpp * k)
        by (nonlinear_arith)
        requires
            stride == (width + skip) * bpp,
            k == (479 - row) * (width + skip) + (width - 1 - col),
    ;
    assert(k >= 0) by (nonlinear_arith)
        requires
            k == (479 - row) * (width + skip) + (width - 1 - col),
            0 <= row < 480,
            0 <= col < width,
            skip >= 0,
    ;
    assert(k >= 1 ==> bpp * k >= bpp) by (nonlinear_arith)
        requires
            bpp > 0,
    ;
    assert(k == 0 ==> bpp * k == 0) by (nonlinear_arith);
}

proof fn lemma_pixel_bits(s: u16, addr: u32, concat: u8)
    by (bit_vector)
    ensures
        ((s >> 0u16) & 0x1F) << 3u16 <= 0xF8,
        ((s >> 5u16) & 0x1F) << 3u16 <= 0xF8,
        ((s >> 10u16) & 0x1F) << 3u16 <= 0xF8,
        ((s >> 5u16) & 0x3F) << 2u16 <= 0xFC,
        ((s >> 11u16) & 0x1F) << 3u16 <= 0xF8,
        concat <= 7 ==> concat >> 1u8 <= 3,
        (concat as u16) >> 1u16 == (concat >> 1u8) as u16,
        addr & 1 != 0 ==> addr % 2 == 1,
        addr & 1 == 0 ==> addr % 2 == 0,
{
}

/// Reads the pixel at `addr` and converts it to RGBA8888.
fn read_pixel(vram: &[u8], addr: u32, depth: u8, concat: u8) -> (r: [u8; 4])
    requires
        depth <= 3,
        concat <= 7,
        depth <= 1 ==> addr + 1 < vram@.len(),
        depth == 2 ==> (if addr % 2 == 1 { addr + 2 } else { addr + 3 }) < vram@.len(),
        depth == 3 ==> addr + 3 < vram@.len(),
    ensures
        r@ == fb_pixel(vram@, depth, concat, addr as int),
{
    let a = addr as usize;
    let len = vram.len();
    assert(a as int == addr as int && len == vram@.len());
    if depth <= 1 {
        let src: u16 = (vram[a] as u16) | ((vram[a + 1] as u16) << 8u16);
        proof { lemma_pixel_bits(src, addr, concat); }
        let c = concat as u16;
        if depth == 0 {
            let r: [u8; 4] = [
                ((((src >> 0u16) & 0x1F) << 3u16) + c) as u8,
                ((((src >> 5u16) & 0x1F) << 3u16) + c) as u8,
                ((((src >> 10u16) & 0x1F) << 3u16) + c) as u8,
                0xFF,
            ];
            assert(r@ =~= fb_pixel(vram@, depth, concat, addr as int));
            r
        } else {
            let r: [u8; 4] = [
                ((((src >> 0u16) & 0x1F) << 3u16) + c) as u8,
                ((((src >> 5u16) & 0x3F) << 2u16) + (c >> 1u16)) as u8,
                ((((src >> 11u16) & 0x1F) << 3u16) + c) as u8,
                0xFF,
            ];
            assert(r@ =~= fb_pixel(vram@, depth, concat, addr as int));
            r
        }
    } else if depth == 2 {
        if addr & 1 != 0 {
            proof { lemma_pixel_bits(0, addr, concat); }
            assert(addr + 2 < vram@.len() && addr >= 1);
            let (b0, b1, b2) = (vram[a + 1], vram[a], vram[a - 1]);
            let r: [u8; 4] = [b0, b1, b2, 0xFF];
            assert(r@ =~= fb_pixel(vram@, depth, concat, addr as int));
            r
        } else {
            proof { lemma_pixel_bits(0, addr, concat); }
            assert(addr + 3 < vram@.len());
            let (b0, b1, b2) = (vram[a + 3], vram[a + 2], vram[a + 1]);
            let r: [u8; 4] = [b0, b1, b2, 0xFF];
            assert(r@ =~= fb_pixel(vram@, depth, concat, addr as int));
            r
        }
    } else {
        let (b0, b1, b2) = (vram[a], vram[a + 1], vram[a + 2]);
        let r: [u8; 4] = [b0, b1, b2, 0xFF];
        assert(r@ =~= fb_pixel(vram@, depth, concat, addr as int));
        r
    }
}

/// The framebuffer block: its registers and the watch over the memory it
/// shows, which marks it dirty when that memory is written.
#[derive(Copy, Clone, Debug)]
pub struct Framebuffer {
    pub registers: FramebufferRegisters,
    pub dirty: bool,
    pub watch_start: u32,
    pub watch_end: u32,
    pub watch_start1: u32,
    pub watch_end1: u32,
    pub interlaced: bool,
}

impl Framebuffer {
    pub fn new() -> (r: Self)
        ensures
            !r.dirty && !r.interlaced,
            r.watch_start == 0 && r.watch_end == 0 && r.watch_start1 == 0 && r.watch_end1 == 0,
            r.registers.read_ctrl.raw == 0x005F8044 && r.registers.read_ctrl.decodes(),
            r.registers.read_size.raw == 0x00177e7f && r.registers.read_size.decodes(),
            r.registers.base_address == 0x005F8050,
            r.registers.base_address2 == 0x005F8050,
    {
        Framebuffer {
            dirty: false,
            registers: FramebufferRegisters::default(),
            watch_start: 0,
            watch_end: 0,
            watch_start1: 0,
            watch_end1: 0,
            interlaced: false,
        }
    }

    /// The address and the size in bytes of the framebuffer being shown.
    pub fn get_parameters(&self) -> (r: (u32, u32))
        requires
            fb_read_bytes(self.registers) <= u32::MAX,
        ensures
            r.0 == self.registers.base_address,
            r.1 == fb_read_bytes(self.registers),
    {
        let size = self.read_size_bytes();
        (self.registers.base_address, size)
    }

    fn read_size_bytes(&self) -> (r: u32)
        requires
            fb_read_bytes(self.registers) <= u32::MAX,
        ensures
            r == fb_read_bytes(self.registers),
    {
        let x = self.registers.read_size.x_size as u64;
        let m = self.registers.read_size.modulus as u64;
        let y = self.registers.read_size.y_size as u64;
        assert((x + m) * (y + 1) * 4 == fb_read_bytes(self.registers));
        (((x + m) * (y + 1)) * 4) as u32
    }

    /// Sets the watched ranges to the memory that the two framebuffer base
    /// addresses show, and clears the dirty flag.
    pub fn invalidate_watches(&mut self)
        requires
            fb_read_bytes(old(self).registers) <= u32::MAX,
            (old(self).registers.base_address & VRAM_MASK) + fb_read_bytes(old(self).registers)
                <= u32::MAX,
            (old(self).registers.base_address2 & VRAM_MASK) + fb_read_bytes(old(self).registers)
                <= u32::MAX,
        ensures
            final(self).watch_start == old(self).registers.base_address & VRAM_MASK,
            final(self).watch_end == final(self).watch_start + fb_read_bytes(old(self).registers),
            final(self).watch_start1 == old(self).registers.base_address2 & VRAM_MASK,
            final(self).watch_end1 == final(self).watch_start1 + fb_read_bytes(old(self).registers),
            !final(self).dirty,
            final(self).registers == old(self).registers,
            final(self).interlaced == old(self).interlaced,
    {
        let size = self.read_size_bytes();
        self.watch_start = self.registers.base_address & VRAM_MASK;
        self.watch_end = self.watch_start + size;
        self.watch_start1 = self.registers.base_address2 & VRAM_MASK;
        self.watch_end1 = self.watch_start1 + size;
        self.dirty = false;
    }

    /// Marks the framebuffer dirty when a write lands in a watched range.
    pub fn notify_write(&mut self, addr: u32, value: u8)
        ensures
            final(self).dirty == (old(self).dirty || ({
                let a = addr & VRAM_MASK;
                (old(self).watch_start <= a < old(self).watch_end) || (old(self).watch_start1 <= a
                    < old(self).watch_end1)
            })),
            final(self).registers == old(self).registers,
            final(self).watch_start == old(self).watch_start,
            final(self).watch_end == old(self).watch_end,
            final(self).watch_start1 == old(self).watch_start1,
            final(self).watch_end1 == old(self).watch_end1,
            final(self).interlaced == old(self).interlaced,
    {
        let addr = addr & VRAM_MASK;
        if !self.dirty && ((addr >= self.watch_start && addr < self.watch_end) || (addr
            >= self.watch_start1 && addr < self.watch_end1)) {
            self.dirty = true;
        }
    }

    /// Converts the framebuffer being shown to RGBA8888: 480 lines of
    /// `fb_width()` pixels, read from video memory from the first base
    /// address on, skipping `fb_skip()` pixels after every line. An empty
    /// picture when the size register is zero in either direction.
    pub fn render_framebuffer(&self, vram: &[u8]) -> (r: (Vec<u8>, u32, u32))
        requires
            self.registers.read_size.x_size != 0 && self.registers.read_size.y_size != 0 ==> {
                &&& self.registers.read_ctrl.decodes()
                &&& self.registers.read_size.decodes()
                &&& self.registers.read_size.modulus >= 1
                &&& self.registers.base_address + 480 * self.registers.fb_stride() <= u32::MAX
                &&& self.registers.fb_last_byte() < vram@.len()
            },
        ensures
            self.registers.read_size.x_size == 0 || self.registers.read_size.y_size == 0 ==> r.0@
                == Seq::<u8>::empty() && r.1 == 0 && r.2 == 0,
            self.registers.read_size.x_size != 0 && self.registers.read_size.y_size != 0 ==> r.0@
                == fb_image(vram@, self.registers, 480) && r.1 == self.registers.fb_width() && r.2
                == 480,
    {
        let fb_r_ctrl = self.registers.read_ctrl;
        let fb_r_size = self.registers.read_size;
        let fb_r_sof1 = self.registers.base_address;

        if fb_r_size.x_size == 0 || fb_r_size.y_size == 0 {
            return (Vec::new(), 0, 0);
        }
        let ghost regs = self.registers;
        proof { lemma_decoded_bounds(fb_r_size, fb_r_ctrl); }

        let mut result: Vec<u8> = Vec::new();
        let xs = fb_r_size.x_size + 1;
        let ms = fb_r_size.modulus - 1;
        proof {
            assert(xs << 1u32 == xs * 2 && ms << 1u32 == ms * 2) by (bit_vector)
                requires xs <= 0x400, ms <= 2;
        }
        let mut width: u32 = xs << 1u32;
        let height: u32 = 480;
        let mut modulus: u32 = ms << 1u32;

        let bpp: u32;
        let depth = FramebufferDepth::from_u32(fb_r_ctrl.fb_depth as u32);
        match depth {
            FramebufferDepth::Fbde_0555 | FramebufferDepth::Fbde_565 => {
                bpp = 2;
            },
            FramebufferDepth::Fbde_888 => {
                bpp = 3;
                width = (width * 2) / 3;
                modulus = (modulus * 2) / 3;
            },
            FramebufferDepth::Fbde_C888 => {
                bpp = 4;
                width /= 2;
                modulus /= 2;
            },
        }
        assert(width == regs.fb_width() && modulus == regs.fb_skip() && bpp == regs.fb_bpp());
        assert(width >= 1);
        let ghost stride: int = regs.fb_stride();
        let ghost base: int = fb_r_sof1 as int;
        let ghost last: int = regs.fb_last_addr();
        assert(width * bpp <= stride) by (nonlinear_arith)
            requires stride == (width + modulus) * bpp, bpp >= 2;

        let mut addr: u32 = fb_r_sof1;
        let mut row: u32 = 0;
        while row < height
            invariant
                height == 480,
                row <= 480,
                width == regs.fb_width(),
                modulus == regs.fb_skip(),
                bpp == regs.fb_bpp(),
                2 <= bpp <= 4,
                width >= 1,
                fb_r_ctrl == regs.read_ctrl,
                fb_r_ctrl.fb_depth <= 3,
                fb_r_ctrl.fb_concat <= 7,
                stride == regs.fb_stride(),
                stride == (width + modulus) * bpp,
                width * bpp <= stride,
                base == regs.base_address,
                last == regs.fb_last_addr(),
                last == base + 479 * stride + (width - 1) * bpp,
                base + 480 * stride <= u32::MAX,
                regs.fb_last_byte() < vram@.len(),
                addr == base + row * stride,
                result@ == fb_image(vram@, regs, row as nat),
            decreases 480 - row,
        {
            let ghost row_start: int = addr as int;
            let mut col: u32 = 0;
            while col < width
                invariant
                    height == 480,
                    row < 480,
                    col <= width,
                    width == regs.fb_width(),
                    modulus == regs.fb_skip(),
                    bpp == regs.fb_bpp(),
                    2 <= bpp <= 4,
                    width >= 1,
                    fb_r_ctrl == regs.read_ctrl,
                    fb_r_ctrl.fb_depth <= 3,
                    fb_r_ctrl.fb_concat <= 7,
                    stride == regs.fb_stride(),
                    stride == (width + modulus) * bpp,
                    width * bpp <= stride,
                    base == regs.base_address,
                    last == base + 479 * stride + (width - 1) * bpp,
                    base + 480 * stride <= u32::MAX,
                    regs.fb_last_byte() < vram@.len(),
                    row_start == base + row * stride,
                    addr == row_start + col * bpp,
                    result@ == fb_image(vram@, regs, row as nat) + fb_row(
                        vram@,
                        regs,
                        row_start,
                        col as nat,
                    ),
                decreases width - col,
            {
                proof {
                    lemma_fb_addr_bound(stride, bpp as int, width as int, modulus as int, row as int, col as int);
                    assert(row * stride + 480 * stride - row * stride == 480 * stride);
                }
                let px = read_pixel(vram, addr, fb_r_ctrl.fb_depth, fb_r_ctrl.fb_concat);
                let ghost before = result@;
                result.push(px[0]);
                result.push(px[1]);
                result.push(px[2]);
                result.push(px[3]);
                assert(result@ =~= before + px@);
                proof {
                    assert((col + 1) * bpp == col * bpp + bpp) by (nonlinear_arith);
                }
                addr = addr + bpp;
                col = col + 1;
            }
            proof {
                assert(width * bpp + modulus * bpp == stride) by (nonlinear_arith)
                    requires stride == (width + modulus) * bpp;
                assert((row + 1) * stride == row * stride + stride) by (nonlinear_arith);
                assert(row * stride + stride <= 480 * stride) by (nonlinear_arith)
                    requires row < 480, stride >= 0;
                assert(modulus * bpp <= stride) by (nonlinear_arith)
                    requires stride == (width + modulus) * bpp, width >= 0, bpp >= 0;
            }
            addr = addr + modulus * bpp;
            row = row + 1;
        }
        (result, width, height)
    }
}

/// A 16-bit framebuffer pixel in the 0555 layout made of channels r, g, b
/// (bit 15 ignored) comes out blue, green, red, each widened by three bits
/// with the concatenation value, then opaque.
pub proof fn law_fb_555_pixel(vram: Seq<u8>, concat: u8, a: int, top: u16, r: u16, g: u16, b: u16)
    requires
        top < 2 && r < 32 && g < 32 && b < 32,
        fb_src16(vram, a) == argb1555(top, r, g, b),
    ensures
        fb_pixel(vram, 0, concat, a) == seq![
            ((b << 3u16) + concat) as u8,
            ((g << 3u16) + concat) as u8,
            ((r << 3u16) + concat) as u8,
            0xFFu8,
        ],
{
    lemma_channel_fields(top, r, g, b, 0, 0, 0, 0, 0);
    assert(fb_pixel(vram, 0, concat, a) =~= seq![
        ((b << 3u16) + concat) as u8,
        ((g << 3u16) + concat) as u8,
        ((r << 3u16) + concat) as u8,
        0xFFu8,
    ]);
}

/// A 16-bit framebuffer pixel in the 565 layout made of channels r, g, b
/// comes out blue, green, red, widened with the concatenation value (half
/// of it for green), then opaque.
pub proof fn law_fb_565_pixel(vram: Seq<u8>, concat: u8, a: int, r: u16, g: u16, b: u16)
    requires
        r < 32 && g < 64 && b < 32,
        fb_src16(vram, a) == rgb565(r, g, b),
    ensures
        fb_pixel(vram, 1, concat, a) == seq![
            ((b << 3u16) + concat) as u8,
            ((g << 2u16) + (concat >> 1u8)) as u8,
            ((r << 3u16) + concat) as u8,
            0xFFu8,
        ],
{
    lemma_channel_fields(0, r, 0, b, g, 0, 0, 0, 0);
    assert(fb_pixel(vram, 1, concat, a) =~= seq![
        ((b << 3u16) + concat) as u8,
        ((g << 2u16) + (concat >> 1u8)) as u8,
        ((r << 3u16) + concat) as u8,
        0xFFu8,
    ]);
}

} // verus!
