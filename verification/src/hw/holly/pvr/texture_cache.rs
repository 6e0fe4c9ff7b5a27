//! The texture cache: the textures that polygons have named, converted from
//! the formats of video memory to RGBA8888, keyed by a hash of their
//! parameters, and marked dirty when the memory they came from is written.
use crate::hw::extensions::le_half;
use crate::hw::holly::pvr::ta::{PvrPixelFmt, PvrTextureFmt};
use std::collections::HashMap;
use std::hash::DefaultHasher;
use std::hash::Hasher;
use vstd::prelude::*;
use vstd::std_specs::hash::DefaultHasherAdditionalSpecFns;
use vstd::std_specs::iter::IteratorSpec;

verus! {

broadcast use vstd::std_specs::hash::group_hash_axioms;

/// The identity of a texture: a hash of its parameters.
#[derive(Debug, Clone, Copy, PartialEq, Eq, Hash, Structural)]
pub struct TextureId(pub u64);

/// The parameters of a texture as a polygon names it.
#[derive(Copy, Clone, Debug)]
pub struct Texture {
    pub width: u32,
    pub height: u32,
    pub addr: u32,
    pub palette_addr: u32,
}

/// The size of a texture as the renderer places it.
#[derive(Copy, Clone, Debug, PartialEq, Eq, Structural)]
pub struct TextureEntry {
    pub width: u32,
    pub height: u32,
}

/// A texture in the cache: where it lies in video memory, its formats, and
/// its converted RGBA8888 texels.
#[derive(Clone, Debug)]
pub struct TextureMetadata {
    pub id: TextureId,
    pub width: u32,
    pub height: u32,
    pub generation: u64,
    pub texture_format: PvrTextureFmt,
    pub pixel_format: PvrPixelFmt,
    pub palette_addr: u32,
    pub data: Vec<u8>,
    pub dirty: bool,
    pub needs_upload: bool,
    pub addr: u32,
    pub end_addr: u32,
}

/// Bytes per texel that the size of a texture is counted with (a 4-bit
/// texel counts as none).
pub open spec fn size_bytes_per_pixel(pixel_format: PvrPixelFmt, texture_format: PvrTextureFmt) -> u32 {
    match pixel_format {
        PvrPixelFmt::EightBpp => 1,
        PvrPixelFmt::FourBpp => 0,
        _ => if texture_format == PvrTextureFmt::Vq || texture_format == PvrTextureFmt::VqMipmaps {
            2
        } else {
            16
        },
    }
}

impl TextureMetadata {
    /// The bytes of video memory a texture occupies.
    pub fn texture_size(
        width: u32,
        height: u32,
        pixel_format: PvrPixelFmt,
        texture_format: PvrTextureFmt,
    ) -> (r: usize)
        requires
            width * height <= u32::MAX,
            width * height * size_bytes_per_pixel(pixel_format, texture_format) <= u32::MAX,
        ensures
            r == width * height * size_bytes_per_pixel(pixel_format, texture_format),
    {
        let bits_per_pixel: u32 = match pixel_format {
            PvrPixelFmt::EightBpp => 8,
            PvrPixelFmt::FourBpp => 4,
            _ => if texture_format == PvrTextureFmt::Vq || texture_format == PvrTextureFmt::VqMipmaps {
                16
            } else {
                128
            },
        };
        let bytes_per_pixel = bits_per_pixel / 8;
        (width * height * bytes_per_pixel) as usize
    }
}

/// The cache of converted textures, keyed by the value of their `TextureId`.
pub struct TextureAtlas {
    pub width: u32,
    pub height: u32,
    pub data: Vec<u8>,
    pub textures: HashMap<u64, TextureMetadata>,
    pub current_generation: u64,
}

/// The first `n` bits of `x` and `y` interleaved: bit `i` of `x` goes to
/// bit `2i`, bit `i` of `y` to bit `2i + 1`.
pub open spec fn morton_spec(x: u32, y: u32, n: nat) -> u32
    decreases n,
{
    if n == 0 || n > 16 {
        0
    } else {
        let i = (n - 1) as u32;
        morton_spec(x, y, (n - 1) as nat) | (((x >> i) & 1) << (2 * i) as u32) | (((y >> i) & 1)
            << (2 * i + 1) as u32)
    }
}

/// The twiddled (Morton order) index of texel `(x, y)`.
pub open spec fn morton(x: u32, y: u32) -> u32 {
    morton_spec(x, y, 16)
}

/// The ways texels are stored in video memory that the cache converts.
#[derive(Clone, Copy, Debug, PartialEq, Eq, Structural)]
pub enum Conversion {
    /// Twiddled ARGB4444, each nibble repeated to fill a byte.
    Twiddled4444,
    /// Twiddled 8-bit palette indices into ARGB4444 palette RAM.
    Twiddled8Bpp,
    /// Twiddled ARGB1555.
    Twiddled1555,
    /// Linear 16-bit texels read as ARGB4444 (each nibble times 0x11).
    Linear4444,
    /// Twiddled RGB565.
    Twiddled565,
    /// Linear RGB565.
    Linear565,
}

/// A 5-bit channel widened to 8 bits.
pub open spec fn expand5(v: u8) -> u8 {
    (v << 3u8) | (v >> 2u8)
}

/// A 6-bit channel widened to 8 bits.
pub open spec fn expand6(v: u8) -> u8 {
    (v << 2u8) | (v >> 4u8)
}

/// A 4-bit channel repeated into both nibbles of a byte.
pub open spec fn repeat4(v: u8) -> u8 {
    (v << 4u8) | v
}

/// The BGRA bytes of an ARGB4444 texel with each nibble times 0x11.
pub open spec fn texel_4444_scaled(px: u16) -> Seq<u8> {
    seq![
        ((px & 0xF) * 0x11) as u8,
        (((px >> 4u16) & 0xF) * 0x11) as u8,
        (((px >> 8u16) & 0xF) * 0x11) as u8,
        (((px >> 12u16) & 0xF) * 0x11) as u8,
    ]
}

/// The BGRA bytes of an RGB565 texel.
pub open spec fn texel_565(px: u16) -> Seq<u8> {
    seq![
        expand5((px & 0x1F) as u8),
        expand6(((px >> 5u16) & 0x3F) as u8),
        expand5(((px >> 11u16) & 0x1F) as u8),
        255u8,
    ]
}

/// Whether the texel at `(x, y)` can be read without leaving the texture
/// data (linear formats check this themselves and give zeros).
pub open spec fn texel_readable(conv: Conversion, data: Seq<u8>, x: u32, y: u32) -> bool {
    match conv {
        Conversion::Twiddled8Bpp => morton(x, y) < data.len(),
        Conversion::Linear4444 | Conversion::Linear565 => true,
        _ => morton(x, y) * 2 + 1 < data.len(),
    }
}

/// The BGRA bytes of texel `(x, y)` of a texture `w` texels wide.
pub open spec fn texel_spec(conv: Conversion, data: Seq<u8>, pram: Seq<u8>, sel: u32, w: u32, x: u32, y: u32) -> Seq<u8> {
    match conv {
        Conversion::Twiddled4444 => {
            let px = le_half(data, morton(x, y) * 2);
            seq![
                repeat4((px & 0xF) as u8),
                repeat4(((px >> 4u16) & 0xF) as u8),
                repeat4(((px >> 8u16) & 0xF) as u8),
                repeat4(((px >> 12u16) & 0xF) as u8),
            ]
        },
        Conversion::Twiddled8Bpp => {
            let full = (((sel & 0x03) as u16) << 8u16) | (data[morton(x, y) as int] as u16);
            let i = full * 2;
            if i + 1 >= pram.len() {
                seq![0u8, 0u8, 0u8, 0u8]
            } else {
                let c = le_half(pram, i);
                seq![
                    ((c & 0xF) * 0xFF / 0xF) as u8,
                    (((c >> 4u16) & 0xF) * 0xFF / 0xF) as u8,
                    (((c >> 8u16) & 0xF) * 0xFF / 0xF) as u8,
                    (((c >> 12u16) & 0xF) * 0xFF / 0xF) as u8,
                ]
            }
        },
        Conversion::Twiddled1555 => {
            let px = le_half(data, morton(x, y) * 2);
            seq![
                expand5((px & 0x1F) as u8),
                expand5(((px >> 5u16) & 0x1F) as u8),
                expand5(((px >> 10u16) & 0x1F) as u8),
                if (px >> 15u16) & 1 == 1 { 255u8 } else { 0u8 },
            ]
        },
        Conversion::Linear4444 => {
            let i = (y * w + x) * 2;
            if i + 1 >= data.len() {
                seq![0u8, 0u8, 0u8, 0u8]
            } else {
                texel_4444_scaled(le_half(data, i))
            }
        },
        Conversion::Twiddled565 => texel_565(le_half(data, morton(x, y) * 2)),
        Conversion::Linear565 => {
            let i = (y * w + x) * 2;
            if i + 1 >= data.len() {
                seq![0u8, 0u8, 0u8, 0u8]
            } else {
                texel_565(le_half(data, i))
            }
        },
    }
}

/// The first `n` texels of line `y`.
pub open spec fn tex_row(conv: Conversion, data: Seq<u8>, pram: Seq<u8>, sel: u32, w: u32, y: u32, n: nat) -> Seq<u8>
    decreases n,
{
    if n == 0 {
        seq![]
    } else {
        tex_row(conv, data, pram, sel, w, y, (n - 1) as nat) + texel_spec(conv, data, pram, sel, w, (n - 1) as u32, y)
    }
}

/// The first `rows` lines of a texture `w` texels wide.
pub open spec fn tex_image(conv: Conversion, data: Seq<u8>, pram: Seq<u8>, sel: u32, w: u32, rows: nat) -> Seq<u8>
    decreases rows,
{
    if rows == 0 {
        seq![]
    } else {
        tex_image(conv, data, pram, sel, w, (rows - 1) as nat) + tex_row(conv, data, pram, sel, w, (rows - 1) as u32, w as nat)
    }
}

proof fn lemma_texel_bits(sel: u32, s: u16, x: u16)
    by (bit_vector)
    ensures
        sel & 0x03 <= 3,
        s <= 3 && x <= 0xFF ==> (s << 8u16) | x <= 0x3FF,
        x & 0xF <= 0xF,
        (x >> 4u16) & 0xF <= 0xF,
        (x >> 8u16) & 0xF <= 0xF,
        (x >> 12u16) & 0xF <= 0xF,
        (x >> 15u16) & 0x1 <= 1,
{
}

impl TextureAtlas {
    /// The twiddled index of texel `(x, y)`: the bits of the two coordinates
    /// interleaved, those of `x` in the even places.
    fn morton_order(x: u32, y: u32) -> (r: u32)
        ensures
            r == morton(x, y),
    {
        let mut morton: u32 = 0;
        let mut i: u32 = 0;
        while i < 16
            invariant
                i <= 16,
                morton == morton_spec(x, y, i as nat),
            decreases 16 - i,
        {
            morton |= ((x >> i) & 1) << (2 * i);
            morton |= ((y >> i) & 1) << (2 * i + 1);
            i = i + 1;
        }
        morton
    }

    /// The BGRA bytes of texel `(x, y)`.
    fn texel(conv: Conversion, data: &[u8], pram: &[u8], sel: u32, w: u32, x: u32, y: u32) -> (r: [u8; 4])
        requires
            texel_readable(conv, data@, x, y),
            (y * w + x) * 2 <= u32::MAX,
        ensures
            r@ == texel_spec(conv, data@, pram@, sel, w, x, y),
    {
        let dlen = data.len();
        let plen = pram.len();
        match conv {
            Conversion::Twiddled4444 => {
                let m = Self::morton_order(x, y) as usize * 2;
                let pixel: u16 = (data[m] as u16) | ((data[m + 1] as u16) << 8u16);
                let a = ((pixel >> 12u16) & 0xF) as u8;
                let r = ((pixel >> 8u16) & 0xF) as u8;
                let g = ((pixel >> 4u16) & 0xF) as u8;
                let b = (pixel & 0xF) as u8;
                let out: [u8; 4] = [(b << 4u8) | b, (g << 4u8) | g, (r << 4u8) | r, (a << 4u8) | a];
                assert(out@ =~= texel_spec(conv, data@, pram@, sel, w, x, y));
                out
            },
            Conversion::Twiddled8Bpp => {
                let m = Self::morton_order(x, y) as usize;
                let palette_index = data[m] as u16;
                proof { lemma_texel_bits(sel, 0, palette_index); }
                let palette_selector = (sel & 0x03) as u16;
                proof { lemma_texel_bits(sel, palette_selector, palette_index); }
                let full_address = (palette_selector << 8u16) | palette_index;
                let pram_index = (full_address * 2) as usize;
                if pram_index + 1 >= plen {
                    let out: [u8; 4] = [0, 0, 0, 0];
                    assert(out@ =~= texel_spec(conv, data@, pram@, sel, w, x, y));
                    return out;
                }
                let c: u16 = (pram[pram_index] as u16) | ((pram[pram_index + 1] as u16) << 8u16);
                proof { lemma_texel_bits(0, 0, c); }
                let a = ((c >> 12u16) & 0xF) * 0xFF / 0xF;
                let r = ((c >> 8u16) & 0xF) * 0xFF / 0xF;
                let g = ((c >> 4u16) & 0xF) * 0xFF / 0xF;
                let b = (c & 0xF) * 0xFF / 0xF;
                let out: [u8; 4] = [b as u8, g as u8, r as u8, a as u8];
                assert(out@ =~= texel_spec(conv, data@, pram@, sel, w, x, y));
                out
            },
            Conversion::Twiddled1555 => {
                let m = Self::morton_order(x, y) as usize * 2;
                let pixel: u16 = (data[m] as u16) | ((data[m + 1] as u16) << 8u16);
                proof { lemma_texel_bits(0, 0, pixel); }
                let a = ((pixel >> 15u16) & 0x1) as u8;
                let r = ((pixel >> 10u16) & 0x1F) as u8;
                let g = ((pixel >> 5u16) & 0x1F) as u8;
                let b = (pixel & 0x1F) as u8;
                let r = (r << 3u8) | (r >> 2u8);
                let g = (g << 3u8) | (g >> 2u8);
                let b = (b << 3u8) | (b >> 2u8);
                let a: u8 = if a == 1 { 255 } else { 0 };
                let out: [u8; 4] = [b, g, r, a];
                assert(out@ =~= texel_spec(conv, data@, pram@, sel, w, x, y));
                out
            },
            Conversion::Linear4444 => {
                let i = ((y * w + x) * 2) as usize;
                if i + 1 >= dlen {
                    let out: [u8; 4] = [0, 0, 0, 0];
                    assert(out@ =~= texel_spec(conv, data@, pram@, sel, w, x, y));
                    return out;
                }
                let pixel: u16 = (data[i] as u16) | ((data[i + 1] as u16) << 8u16);
                proof { lemma_texel_bits(0, 0, pixel); }
                let a = (((pixel >> 12u16) & 0xF) * 0x11) as u8;
                let r = (((pixel >> 8u16) & 0xF) * 0x11) as u8;
                let g = (((pixel >> 4u16) & 0xF) * 0x11) as u8;
                let b = ((pixel & 0xF) * 0x11) as u8;
                let out: [u8; 4] = [b, g, r, a];
                assert(out@ =~= texel_spec(conv, data@, pram@, sel, w, x, y));
                out
            },
            Conversion::Twiddled565 => {
                let m = Self::morton_order(x, y) as usize * 2;
                let pixel: u16 = (data[m] as u16) | ((data[m + 1] as u16) << 8u16);
                let out = Self::bgra_565(pixel);
                assert(out@ =~= texel_spec(conv, data@, pram@, sel, w, x, y));
                out
            },
            Conversion::Linear565 => {
                let i = ((y * w + x) * 2) as usize;
                if i + 1 >= dlen {
                    let out: [u8; 4] = [0, 0, 0, 0];
                    assert(out@ =~= texel_spec(conv, data@, pram@, sel, w, x, y));
                    return out;
                }
                let pixel: u16 = (data[i] as u16) | ((data[i + 1] as u16) << 8u16);
                let out = Self::bgra_565(pixel);
                assert(out@ =~= texel_spec(conv, data@, pram@, sel, w, x, y));
                out
            },
        }
    }

    /// The BGRA bytes of an RGB565 texel.
    fn bgra_565(pixel: u16) -> (r: [u8; 4])
        ensures
            r@ == texel_565(pixel),
    {
        let r = ((pixel >> 11u16) & 0x1F) as u8;
        let g = ((pixel >> 5u16) & 0x3F) as u8;
        let b = (pixel & 0x1F) as u8;
        let r = (r << 3u8) | (r >> 2u8);
        let g = (g << 2u8) | (g >> 4u8);
        let b = (b << 3u8) | (b >> 2u8);
        let out: [u8; 4] = [b, g, r, 255];
        assert(out@ =~= texel_565(pixel));
        out
    }

    /// Converts a whole texture, line by line.
    fn convert_image(conv: Conversion, data: &[u8], pram: &[u8], sel: u32, width: u32, height: u32) -> (r: Vec<u8>)
        requires
            width * height * 4 <= u32::MAX,
            forall|x: u32, y: u32| x < width && y < height ==> #[trigger] texel_readable(conv, data@, x, y),
        ensures
            r@ == tex_image(conv, data@, pram@, sel, width, height as nat),
    {
        let mut out: Vec<u8> = Vec::new();
        let mut y: u32 = 0;
        while y < height
            invariant
                y <= height,
                width * height * 4 <= u32::MAX,
                forall|x: u32, y: u32| x < width && y < height ==> #[trigger] texel_readable(conv, data@, x, y),
                out@ == tex_image(conv, data@, pram@, sel, width, y as nat),
            decreases height - y,
        {
            let mut x: u32 = 0;
            while x < width
                invariant
                    x <= width,
                    y < height,
                    width * height * 4 <= u32::MAX,
                    forall|x: u32, y: u32| x < width && y < height ==> #[trigger] texel_readable(conv, data@, x, y),
                    out@ == tex_image(conv, data@, pram@, sel, width, y as nat) + tex_row(conv, data@, pram@, sel, width, y, x as nat),
                decreases width - x,
            {
                proof {
                    assert((y * width + x) * 2 <= width * height * 4) by (nonlinear_arith)
                        requires y < height, x < width;
                }
                let px = Self::texel(conv, data, pram, sel, width, x, y);
                let ghost before = out@;
                out.push(px[0]);
                out.push(px[1]);
                out.push(px[2]);
                out.push(px[3]);
                assert(out@ =~= before + px@);
                x = x + 1;
            }
            y = y + 1;
        }
        out
    }
}

/// The threshold below which textures of the cache at `generation` are
/// stale: 10000 generations back, or 0.
pub open spec fn stale_threshold(generation: u64) -> u64 {
    if generation >= 10000 { (generation - 10000) as u64 } else { 0 }
}

/// The textures used at generation `threshold` or later.
pub open spec fn retained(m: Map<u64, TextureMetadata>, threshold: u64) -> Map<u64, TextureMetadata> {
    Map::new(|k: u64| m.contains_key(k) && m[k].generation >= threshold, |k: u64| m[k])
}

/// Every texture marked as uploaded.
pub open spec fn uploads_taken(m: Map<u64, TextureMetadata>) -> Map<u64, TextureMetadata> {
    Map::new(|k: u64| m.contains_key(k), |k: u64| TextureMetadata { needs_upload: false, ..m[k] })
}

/// The keys of a texture map, each once.
fn texture_keys(m: &HashMap<u64, TextureMetadata>) -> (r: Vec<u64>)
    ensures
        r@.to_set() == m@.dom(),
        r@.no_duplicates(),
{
    let mut r: Vec<u64> = Vec::new();
    for k in it: m.keys()
        invariant
            it.seq() == vstd::std_specs::hash::spec_keys_iter(m).remaining(),
            r@.len() == it.index(),
            forall|j: int| 0 <= j < it.index() ==> r@[j] == *it.seq()[j],
    {
        r.push(*k);
    }
    let ghost all = vstd::std_specs::hash::spec_keys_iter(m).remaining();
    assert(r@.len() == all.len());
    assert(r@ =~= all.unref());
    r
}

/// The BGRA bytes of the first `n` two-byte ARGB4444 words of `data`.
pub open spec fn chunks_4444(data: Seq<u8>, n: nat) -> Seq<u8>
    decreases n,
{
    if n == 0 {
        seq![]
    } else {
        chunks_4444(data, (n - 1) as nat) + texel_4444_scaled(le_half(data, 2 * (n - 1)))
    }
}

/// The converter the cache uses for a pair of formats; `None` stands for the
/// one that reads ARGB4444 words in order without regard to the size.
pub open spec fn conversion_of(pix: PvrPixelFmt, tex: PvrTextureFmt) -> Option<Conversion> {
    if pix == PvrPixelFmt::Rgb565 && tex == PvrTextureFmt::Twiddled {
        Some(Conversion::Twiddled565)
    } else if pix == PvrPixelFmt::Argb4444 && tex == PvrTextureFmt::Bitmap {
        None
    } else if pix == PvrPixelFmt::Argb4444 && (tex == PvrTextureFmt::Twiddled || tex
        == PvrTextureFmt::TwiddledMipmaps) {
        Some(Conversion::Twiddled4444)
    } else if pix == PvrPixelFmt::Argb1555 && tex == PvrTextureFmt::Bitmap {
        Some(Conversion::Linear4444)
    } else if pix == PvrPixelFmt::Argb1555 && (tex == PvrTextureFmt::Twiddled || tex
        == PvrTextureFmt::TwiddledMipmaps) {
        Some(Conversion::Twiddled1555)
    } else if pix == PvrPixelFmt::EightBpp && tex == PvrTextureFmt::Twiddled {
        Some(Conversion::Twiddled8Bpp)
    } else {
        Some(Conversion::Linear565)
    }
}

/// The bytes of video memory a texture was read from.
pub open spec fn texture_bytes(t: TextureMetadata, vram: Seq<u8>) -> Seq<u8> {
    vram.subrange(t.addr as int, t.end_addr as int)
}

/// The RGBA8888 texels of a texture, converted from video memory.
pub open spec fn converted_texels(t: TextureMetadata, vram: Seq<u8>, pram: Seq<u8>) -> Seq<u8> {
    let data = texture_bytes(t, vram);
    match conversion_of(t.pixel_format, t.texture_format) {
        None => chunks_4444(data, data.len() / 2),
        Some(Conversion::Twiddled8Bpp) => tex_image(
            Conversion::Twiddled8Bpp,
            data,
            pram,
            t.palette_addr,
            t.width,
            t.height as nat,
        ),
        Some(c) => tex_image(c, data, Seq::empty(), 0, t.width, t.height as nat),
    }
}

/// Whether a texture can be converted: its bytes lie in video memory, its
/// size fits the converters' arithmetic, and every twiddled texel lies in
/// its bytes.
pub open spec fn can_convert(t: TextureMetadata, vram: Seq<u8>) -> bool {
    &&& t.addr <= t.end_addr <= vram.len()
    &&& t.width * t.height * 4 <= u32::MAX
    &&& match conversion_of(t.pixel_format, t.texture_format) {
        None => true,
        Some(c) => forall|x: u32, y: u32|
            x < t.width && y < t.height ==> #[trigger] texel_readable(c, texture_bytes(t, vram), x, y),
    }
}

/// Whether `n` is texture `t` after `realize_texture`: converted when it
/// was dirty, and stamped with the current generation.
pub open spec fn is_realized(n: TextureMetadata, t: TextureMetadata, vram: Seq<u8>, pram: Seq<u8>, generation: u64) -> bool {
    &&& n.generation == generation
    &&& n.id == t.id
    &&& n.width == t.width
    &&& n.height == t.height
    &&& n.texture_format == t.texture_format
    &&& n.pixel_format == t.pixel_format
    &&& n.palette_addr == t.palette_addr
    &&& n.addr == t.addr
    &&& n.end_addr == t.end_addr
    &&& if t.dirty {
        &&& n.data@ == converted_texels(t, vram, pram)
        &&& !n.dirty
        &&& n.needs_upload
    } else {
        &&& n.data@ == t.data@
        &&& n.dirty == t.dirty
        &&& n.needs_upload == t.needs_upload
    }
}

/// A texture after a write to video memory at `addr` (`paletted`: a write
/// to palette RAM, which dirties every paletted texture).
pub open spec fn dirtied(t: TextureMetadata, addr: u32, paletted: bool) -> TextureMetadata {
    TextureMetadata {
        dirty: t.dirty || (if paletted { t.palette_addr > 0 } else { t.addr <= addr && addr < t.end_addr }),
        ..t
    }
}

/// Every texture of `m` after a write.
pub open spec fn all_dirtied(m: Map<u64, TextureMetadata>, addr: u32, paletted: bool) -> Map<u64, TextureMetadata> {
    Map::new(|k: u64| m.dom().contains(k), |k: u64| dirtied(m[k], addr, paletted))
}

/// The four little-endian bytes of `v`.
pub open spec fn le4(v: u32) -> Seq<u8> {
    seq![v as u8, (v >> 8u32) as u8, (v >> 16u32) as u8, (v >> 24u32) as u8]
}

/// The identity of a texture: the default hasher fed with the width, the
/// height, the address, the texture format, the pixel format and the
/// palette address, each as four little-endian bytes.
pub open spec fn texture_hash(texture: Texture, texture_format: PvrTextureFmt, pixel_format: PvrPixelFmt) -> u64 {
    DefaultHasher::spec_finish(
        seq![
            le4(texture.width),
            le4(texture.height),
            le4(texture.addr),
            le4(texture_format.code()),
            le4(pixel_format.code()),
            le4(texture.palette_addr),
        ],
    )
}

fn le_bytes(v: u32) -> (r: [u8; 4])
    ensures
        r@ == le4(v),
{
    let r: [u8; 4] = [v as u8, (v >> 8u32) as u8, (v >> 16u32) as u8, (v >> 24u32) as u8];
    assert(r@ =~= le4(v));
    r
}

impl PvrTextureFmt {
    /// The number of the layout.
    pub fn to_u32(&self) -> (r: u32)
        ensures
            r == self.code(),
    {
        match self {
            PvrTextureFmt::Invalid => 0x0,
            PvrTextureFmt::Twiddled => 0x1,
            PvrTextureFmt::TwiddledMipmaps => 0x2,
            PvrTextureFmt::Vq => 0x3,
            PvrTextureFmt::VqMipmaps => 0x4,
            PvrTextureFmt::Palette4Bpp => 0x5,
            PvrTextureFmt::Palette4BppMipmaps => 0x6,
            PvrTextureFmt::Palette8Bpp => 0x7,
            PvrTextureFmt::Palette8BppMipmaps => 0x8,
            PvrTextureFmt::BitmapRect => 0x9,
            PvrTextureFmt::Bitmap => 0xb,
            PvrTextureFmt::TwiddledRect => 0xd,
        }
    }
}

impl PvrPixelFmt {
    /// The number of the format.
    pub fn to_u32(&self) -> (r: u32)
        ensures
            r == self.code(),
    {
        match self {
            PvrPixelFmt::Argb1555 => 0,
            PvrPixelFmt::Rgb565 => 1,
            PvrPixelFmt::Argb4444 => 2,
            PvrPixelFmt::Yuv422 => 3,
            PvrPixelFmt::Bumpmap => 4,
            PvrPixelFmt::FourBpp => 5,
            PvrPixelFmt::EightBpp => 6,
            PvrPixelFmt::Reserved => 7,
        }
    }
}

impl TextureAtlas {
    /// An atlas of the given size with no textures and blank texels.
    pub fn new(width: u32, height: u32) -> (r: Self)
        requires
            width * height * 4 <= u32::MAX,
        ensures
            r.width == width && r.height == height,
            r.data@ == Seq::new((width * height * 4) as nat, |i: int| 0u8),
            r.textures@ == Map::<u64, TextureMetadata>::empty(),
            r.current_generation == 0,
    {
        proof { assert(width * height * 4 == (width * height) * 4); }
        Self {
            width,
            height,
            data: vec![0; (width * height * 4) as usize],
            textures: HashMap::new(),
            current_generation: 0,
        }
    }

    /// The identity of a texture with the given parameters.
    pub fn hash_texture(texture: &Texture, texture_format: PvrTextureFmt, pixel_format: PvrPixelFmt) -> (r: u64)
        ensures
            r == texture_hash(*texture, texture_format, pixel_format),
    {
        let mut hasher = DefaultHasher::new();
        let b = le_bytes(texture.width);
        hasher.write(&b);
        let b = le_bytes(texture.height);
        hasher.write(&b);
        let b = le_bytes(texture.addr);
        hasher.write(&b);
        let b = le_bytes(texture_format.to_u32());
        hasher.write(&b);
        let b = le_bytes(pixel_format.to_u32());
        hasher.write(&b);
        let b = le_bytes(texture.palette_addr);
        hasher.write(&b);
        let r = hasher.finish();
        assert(hasher@ =~= seq![
            le4(texture.width),
            le4(texture.height),
            le4(texture.addr),
            le4(texture_format.code()),
            le4(pixel_format.code()),
            le4(texture.palette_addr),
        ]);
        r
    }

    /// Marks dirty, in every texture, what a write at `addr` touches.
    fn dirty_all(&mut self, addr: u32, paletted: bool)
        ensures
            final(self).textures@ == all_dirtied(old(self).textures@, addr, paletted),
            final(self).data == old(self).data,
            final(self).current_generation == old(self).current_generation,
            final(self).width == old(self).width && final(self).height == old(self).height,
    {
        let keys = texture_keys(&self.textures);
        let ghost start = self.textures@;
        let mut i: usize = 0;
        while i < keys.len()
            invariant
                i <= keys@.len(),
                keys@.to_set() == start.dom(),
                keys@.no_duplicates(),
                self.textures@.dom() == start.dom(),
                forall|n: int| 0 <= n < i ==> self.textures@[#[trigger] keys@[n]] == dirtied(start[keys@[n]], addr, paletted),
                forall|n: int| i <= n < keys@.len() ==> self.textures@[#[trigger] keys@[n]] == start[keys@[n]],
                self.data == old(self).data,
                self.current_generation == old(self).current_generation,
                self.width == old(self).width && self.height == old(self).height,
            decreases keys@.len() - i,
        {
            let k = keys[i];
            assert(keys@.to_set().contains(k));
            let removed = self.textures.remove(&k);
            match removed {
                Some(mut t) => {
                    let hit = if paletted { t.palette_addr > 0 } else { t.addr <= addr && addr < t.end_addr };
                    if hit {
                        t.dirty = true;
                    }
                    self.textures.insert(k, t);
                },
                None => {},
            }
            proof {
                assert forall|n: int| 0 <= n < keys@.len() && n != i implies keys@[n] != k by {}
            }
            i = i + 1;
        }
        proof {
            assert forall|k: u64| #[trigger] start.dom().contains(k) implies self.textures@[k] == dirtied(start[k], addr, paletted) by {
                assert(keys@.to_set().contains(k));
                let n = choose|n: int| 0 <= n < keys@.len() && keys@[n] == k;
                assert(self.textures@[keys@[n]] == dirtied(start[keys@[n]], addr, paletted));
            }
        }
        assert(self.textures@ =~= all_dirtied(start, addr, paletted));
    }

    /// Starts a new generation and drops the textures not used in the last
    /// 10000 generations (those older than the threshold it answers: the new
    /// generation less 10000, or 0).
    pub fn evict_stale(&mut self) -> (r: u64)
        requires
            old(self).current_generation < u64::MAX,
        ensures
            final(self).current_generation == old(self).current_generation + 1,
            r == stale_threshold(final(self).current_generation),
            final(self).textures@ == retained(old(self).textures@, r),
            final(self).data == old(self).data,
            final(self).width == old(self).width && final(self).height == old(self).height,
    {
        self.increment_generation();
        let gen = self.current_generation;
        let threshold = if gen >= 10000 { gen - 10000 } else { 0 };
        let keys = texture_keys(&self.textures);
        let ghost start = self.textures@;
        let mut i: usize = 0;
        while i < keys.len()
            invariant
                i <= keys@.len(),
                keys@.to_set() == start.dom(),
                keys@.no_duplicates(),
                self.textures@.dom().subset_of(start.dom()),
                forall|k: u64| #[trigger] self.textures@.contains_key(k) ==> self.textures@[k] == start[k],
                forall|n: int| 0 <= n < i ==> (#[trigger] self.textures@.contains_key(keys@[n])
                    <==> start[keys@[n]].generation >= threshold),
                forall|n: int| i <= n < keys@.len() ==> #[trigger] self.textures@.contains_key(keys@[n]),
                self.data == old(self).data,
                self.current_generation == gen,
                self.width == old(self).width && self.height == old(self).height,
            decreases keys@.len() - i,
        {
            let k = keys[i];
            assert(keys@.to_set().contains(k));
            let removed = self.textures.remove(&k);
            match removed {
                Some(t) => {
                    if t.generation >= threshold {
                        self.textures.insert(k, t);
                    }
                },
                None => {},
            }
            proof {
                assert forall|n: int| 0 <= n < keys@.len() && n != i implies keys@[n] != k by {}
            }
            i = i + 1;
        }
        proof {
            let want = retained(start, threshold);
            assert forall|k: u64| #[trigger] self.textures@.contains_key(k) == want.contains_key(k) by {
                if start.dom().contains(k) {
                    assert(keys@.to_set().contains(k));
                    let n = choose|n: int| 0 <= n < keys@.len() && keys@[n] == k;
                    assert(self.textures@.contains_key(keys@[n]) <==> start[keys@[n]].generation >= threshold);
                }
            }
            assert(self.textures@ =~= want);
        }
        threshold
    }

    /// Hands out the textures waiting to be uploaded, each once, and marks
    /// every texture as uploaded.
    pub fn take_pending_uploads(&mut self) -> (r: Vec<u64>)
        ensures
            r@.no_duplicates(),
            forall|k: u64| r@.contains(k) <==> old(self).textures@.contains_key(k) && old(self).textures@[k].needs_upload,
            final(self).textures@ == uploads_taken(old(self).textures@),
            final(self).data == old(self).data,
            final(self).current_generation == old(self).current_generation,
            final(self).width == old(self).width && final(self).height == old(self).height,
    {
        let keys = texture_keys(&self.textures);
        let ghost start = self.textures@;
        let mut out: Vec<u64> = Vec::new();
        let mut i: usize = 0;
        while i < keys.len()
            invariant
                i <= keys@.len(),
                keys@.to_set() == start.dom(),
                keys@.no_duplicates(),
                self.textures@.dom() == start.dom(),
                forall|n: int| 0 <= n < i ==> self.textures@[#[trigger] keys@[n]] == (TextureMetadata { needs_upload: false, ..start[keys@[n]] }),
                forall|n: int| i <= n < keys@.len() ==> self.textures@[#[trigger] keys@[n]] == start[keys@[n]],
                out@.no_duplicates(),
                forall|k: u64| out@.contains(k) <==> exists|n: int| 0 <= n < i && keys@[n] == k && start[k].needs_upload,
                self.data == old(self).data,
                self.current_generation == old(self).current_generation,
                self.width == old(self).width && self.height == old(self).height,
            decreases keys@.len() - i,
        {
            let k = keys[i];
            assert(keys@.to_set().contains(k));
            let ghost out0 = out@;
            let removed = self.textures.remove(&k);
            match removed {
                Some(mut t) => {
                    if t.needs_upload {
                        proof {
                            assert forall|n: int| 0 <= n < i implies keys@[n] != k by {}
                            assert(!out0.contains(k));
                        }
                        out.push(k);
                        proof {
                            assert forall|a: int, b: int| 0 <= a < b < out@.len() implies out@[a] != out@[b] by {
                                if b == out0.len() {
                                    assert(out@[a] == out0[a]);
                                    assert(out0.contains(out0[a]));
                                } else {
                                    assert(out@[a] == out0[a] && out@[b] == out0[b]);
                                }
                            }
                        }
                    }
                    t.needs_upload = false;
                    self.textures.insert(k, t);
                },
                None => {},
            }
            proof {
                assert forall|n: int| 0 <= n < keys@.len() && n != i implies keys@[n] != k by {}
                assert forall|x: u64| out@.contains(x) <==> exists|n: int| 0 <= n < i + 1 && keys@[n] == x && start[x].needs_upload by {
                    if out@.contains(x) && !out0.contains(x) {
                        assert(out@ == out0.push(k));
                        assert(x == k);
                        assert(keys@[i as int] == x);
                    }
                    if exists|n: int| 0 <= n < i + 1 && keys@[n] == x && start[x].needs_upload {
                        let n = choose|n: int| 0 <= n < i + 1 && keys@[n] == x && start[x].needs_upload;
                        if n < i {
                            assert(out0.contains(x));
                            assert(out@.contains(x)) by {
                                let j = choose|j: int| 0 <= j < out0.len() && out0[j] == x;
                                if out@ != out0 { assert(out@[j] == x); }
                            }
                        } else {
                            assert(out@ == out0.push(k));
                            assert(out@[out0.len() as int] == x);
                        }
                    }
                }
            }
            i = i + 1;
        }
        proof {
            assert forall|k: u64| #[trigger] start.dom().contains(k) implies self.textures@[k] == (TextureMetadata { needs_upload: false, ..start[k] }) by {
                assert(keys@.to_set().contains(k));
                let n = choose|n: int| 0 <= n < keys@.len() && keys@[n] == k;
                assert(self.textures@[keys@[n]] == (TextureMetadata { needs_upload: false, ..start[keys@[n]] }));
            }
            assert(self.textures@ =~= uploads_taken(start));
            assert forall|k: u64| out@.contains(k) <==> start.contains_key(k) && start[k].needs_upload by {
                if start.contains_key(k) && start[k].needs_upload {
                    assert(keys@.to_set().contains(k));
                    let n = choose|n: int| 0 <= n < keys@.len() && keys@[n] == k;
                    assert(0 <= n < i && keys@[n] == k && start[k].needs_upload);
                }
            }
        }
        out
    }

    /// Marks dirty the textures whose bytes hold `addr`.
    pub fn notify_write(&mut self, addr: u32)
        ensures
            final(self).textures@ == all_dirtied(old(self).textures@, addr, false),
            final(self).data == old(self).data,
            final(self).current_generation == old(self).current_generation,
            final(self).width == old(self).width && final(self).height == old(self).height,
    {
        self.dirty_all(addr, false);
    }

    /// Marks dirty every paletted texture (one with a palette address).
    pub fn notify_paletted_write(&mut self, addr: u32)
        ensures
            final(self).textures@ == all_dirtied(old(self).textures@, addr, true),
            final(self).data == old(self).data,
            final(self).current_generation == old(self).current_generation,
            final(self).width == old(self).width && final(self).height == old(self).height,
    {
        self.dirty_all(addr, true);
    }

    /// Blanks the atlas texels.
    pub fn clear(&mut self)
        requires
            old(self).width * old(self).height * 4 <= u32::MAX,
        ensures
            final(self).data@ == Seq::new(
                (old(self).width * old(self).height * 4) as nat,
                |i: int| 0u8,
            ),
            final(self).textures@ == old(self).textures@,
            final(self).current_generation == old(self).current_generation,
            final(self).width == old(self).width && final(self).height == old(self).height,
    {
        self.data = vec![0; (self.width * self.height * 4) as usize];
    }

    /// Stamps a cached texture with the current generation.
    pub fn mark_texture(&mut self, texture_id: TextureId)
        requires
            old(self).textures@.contains_key(texture_id.0),
        ensures
            final(self).textures@ == old(self).textures@.insert(
                texture_id.0,
                (TextureMetadata { generation: old(self).current_generation, ..old(self).textures@[texture_id.0] }),
            ),
            final(self).data == old(self).data,
            final(self).current_generation == old(self).current_generation,
            final(self).width == old(self).width && final(self).height == old(self).height,
    {
        let removed = self.textures.remove(&texture_id.0);
        match removed {
            Some(mut t) => {
                t.generation = self.current_generation;
                self.textures.insert(texture_id.0, t);
            },
            None => {},
        }
        assert(self.textures@ =~= old(self).textures@.insert(
            texture_id.0,
            (TextureMetadata { generation: old(self).current_generation, ..old(self).textures@[texture_id.0] }),
        ));
    }

    /// Starts a new generation.
    pub fn increment_generation(&mut self)
        requires
            old(self).current_generation < u64::MAX,
        ensures
            final(self).current_generation == old(self).current_generation + 1,
            final(self).textures@ == old(self).textures@,
            final(self).data == old(self).data,
            final(self).width == old(self).width && final(self).height == old(self).height,
    {
        self.current_generation += 1;
    }
}

impl TextureAtlas {
    fn convert_twiddled_rgb4444_to_argb8888(data: &[u8], width: u32, height: u32) -> (r: Vec<u8>)
        requires
            width * height * 4 <= u32::MAX,
            forall|x: u32, y: u32| x < width && y < height ==> #[trigger] texel_readable(Conversion::Twiddled4444, data@, x, y),
        ensures
            r@ == tex_image(Conversion::Twiddled4444, data@, Seq::empty(), 0, width, height as nat),
    {
        let none: [u8; 0] = [];
        assert(none@ =~= Seq::<u8>::empty());
        Self::convert_image(Conversion::Twiddled4444, data, &none, 0, width, height)
    }

    fn convert_twiddled_8bpp_to_rgba8888(data: &[u8], pram: &[u8], palette_selector: u32, width: u32, height: u32) -> (r: Vec<u8>)
        requires
            width * height * 4 <= u32::MAX,
            forall|x: u32, y: u32| x < width && y < height ==> #[trigger] texel_readable(Conversion::Twiddled8Bpp, data@, x, y),
        ensures
            r@ == tex_image(Conversion::Twiddled8Bpp, data@, pram@, palette_selector, width, height as nat),
    {
        Self::convert_image(Conversion::Twiddled8Bpp, data, pram, palette_selector, width, height)
    }

    fn convert_twiddled_rgb1555_to_rgba8888(data: &[u8], width: u32, height: u32) -> (r: Vec<u8>)
        requires
            width * height * 4 <= u32::MAX,
            forall|x: u32, y: u32| x < width && y < height ==> #[trigger] texel_readable(Conversion::Twiddled1555, data@, x, y),
        ensures
            r@ == tex_image(Conversion::Twiddled1555, data@, Seq::empty(), 0, width, height as nat),
    {
        let none: [u8; 0] = [];
        assert(none@ =~= Seq::<u8>::empty());
        Self::convert_image(Conversion::Twiddled1555, data, &none, 0, width, height)
    }

    /// Linear 16-bit texels, read as ARGB4444 with each channel times 0x11
    /// (zeros past the end of the data).
    fn convert_rgb1555_to_rgba8888(data: &[u8], width: u32, height: u32) -> (r: Vec<u8>)
        requires
            width * height * 4 <= u32::MAX,
        ensures
            r@ == tex_image(Conversion::Linear4444, data@, Seq::empty(), 0, width, height as nat),
    {
        let none: [u8; 0] = [];
        assert(none@ =~= Seq::<u8>::empty());
        Self::convert_image(Conversion::Linear4444, data, &none, 0, width, height)
    }

    /// The ARGB4444 words of `data` in order, each channel times 0x11.
    fn convert_rgb4444_to_argb8888(data: &[u8], width: u32, height: u32) -> (r: Vec<u8>)
        requires
            width * height * 4 <= u32::MAX,
        ensures
            r@ == chunks_4444(data@, data@.len() / 2),
    {
        let mut argb_data: Vec<u8> = Vec::new();
        let dlen = data.len();
        let n = dlen / 2;
        let mut k: usize = 0;
        while k < n
            invariant
                dlen == data@.len(),
                n == data@.len() / 2,
                k <= n,
                argb_data@ == chunks_4444(data@, k as nat),
            decreases n - k,
        {
            let word: u16 = (data[2 * k] as u16) | ((data[2 * k + 1] as u16) << 8u16);
            proof { lemma_texel_bits(0, 0, word); }
            let a = (((word >> 12u16) & 0xF) * 0x11) as u8;
            let r = (((word >> 8u16) & 0xF) * 0x11) as u8;
            let g = (((word >> 4u16) & 0xF) * 0x11) as u8;
            let b = ((word & 0xF) * 0x11) as u8;
            let ghost before = argb_data@;
            argb_data.push(b);
            argb_data.push(g);
            argb_data.push(r);
            argb_data.push(a);
            assert(argb_data@ =~= before + texel_4444_scaled(le_half(data@, 2 * k)));
            k = k + 1;
        }
        argb_data
    }

    fn convert_twiddled_rgb565_to_rgba8888(data: &[u8], width: u32, height: u32) -> (r: Vec<u8>)
        requires
            width * height * 4 <= u32::MAX,
            forall|x: u32, y: u32| x < width && y < height ==> #[trigger] texel_readable(Conversion::Twiddled565, data@, x, y),
        ensures
            r@ == tex_image(Conversion::Twiddled565, data@, Seq::empty(), 0, width, height as nat),
    {
        let none: [u8; 0] = [];
        assert(none@ =~= Seq::<u8>::empty());
        Self::convert_image(Conversion::Twiddled565, data, &none, 0, width, height)
    }

    /// Linear RGB565 texels (zeros past the end of the data).
    fn convert_rgb565_to_rgba8888(data: &[u8], width: u32, height: u32) -> (r: Vec<u8>)
        requires
            width * height * 4 <= u32::MAX,
        ensures
            r@ == tex_image(Conversion::Linear565, data@, Seq::empty(), 0, width, height as nat),
    {
        let none: [u8; 0] = [];
        assert(none@ =~= Seq::<u8>::empty());
        Self::convert_image(Conversion::Linear565, data, &none, 0, width, height)
    }

    /// Converts a cached texture from video memory when it is dirty, and
    /// stamps it with the current generation; nothing happens for an id that
    /// is not in the cache.
    pub fn realize_texture(&mut self, texture_id: TextureId, vram: &mut [u8], pram: &mut [u8])
        requires
            old(self).textures@.contains_key(texture_id.0) && old(self).textures@[texture_id.0].dirty
                ==> can_convert(old(self).textures@[texture_id.0], old(vram)@),
        ensures
            final(vram)@ == old(vram)@,
            final(pram)@ == old(pram)@,
            final(self).textures@.dom() == old(self).textures@.dom(),
            forall|k: u64| k != texture_id.0 && #[trigger] old(self).textures@.contains_key(k)
                ==> final(self).textures@[k] == old(self).textures@[k],
            old(self).textures@.contains_key(texture_id.0) ==> is_realized(
                final(self).textures@[texture_id.0],
                old(self).textures@[texture_id.0],
                old(vram)@,
                old(pram)@,
                old(self).current_generation,
            ),
            final(self).data == old(self).data,
            final(self).current_generation == old(self).current_generation,
            final(self).width == old(self).width && final(self).height == old(self).height,
    {
        let removed = self.textures.remove(&texture_id.0);
        match removed {
            Some(mut texture) => {
                if texture.dirty {
                    let ghost t0 = texture;
                    let texture_data = vstd::slice::slice_subrange(vram, texture.addr as usize, texture.end_addr as usize);
                    assert(texture_data@ == texture_bytes(t0, old(vram)@));
                    let w = texture.width;
                    let h = texture.height;
                    let converted_texture_data = match (texture.pixel_format, texture.texture_format) {
                        (PvrPixelFmt::Rgb565, PvrTextureFmt::Bitmap) => {
                            Self::convert_rgb565_to_rgba8888(texture_data, w, h)
                        },
                        (PvrPixelFmt::Rgb565, PvrTextureFmt::Twiddled) => {
                            Self::convert_twiddled_rgb565_to_rgba8888(texture_data, w, h)
                        },
                        (PvrPixelFmt::Argb4444, PvrTextureFmt::Bitmap) => {
                            Self::convert_rgb4444_to_argb8888(texture_data, w, h)
                        },
                        (PvrPixelFmt::Argb4444, PvrTextureFmt::Twiddled) => {
                            Self::convert_twiddled_rgb4444_to_argb8888(texture_data, w, h)
                        },
                        (PvrPixelFmt::Argb4444, PvrTextureFmt::TwiddledMipmaps) => {
                            Self::convert_twiddled_rgb4444_to_argb8888(texture_data, w, h)
                        },
                        (PvrPixelFmt::Argb1555, PvrTextureFmt::Bitmap) => {
                            Self::convert_rgb1555_to_rgba8888(texture_data, w, h)
                        },
                        (PvrPixelFmt::Argb1555, PvrTextureFmt::Twiddled) => {
                            Self::convert_twiddled_rgb1555_to_rgba8888(texture_data, w, h)
                        },
                        (PvrPixelFmt::Argb1555, PvrTextureFmt::TwiddledMipmaps) => {
                            Self::convert_twiddled_rgb1555_to_rgba8888(texture_data, w, h)
                        },
                        (PvrPixelFmt::EightBpp, PvrTextureFmt::Twiddled) => {
                            Self::convert_twiddled_8bpp_to_rgba8888(texture_data, pram, texture.palette_addr, w, h)
                        },
                        _ => {
                            Self::convert_rgb565_to_rgba8888(texture_data, w, h)
                        },
                    };
                    texture.data = converted_texture_data;
                    texture.dirty = false;
                    texture.needs_upload = true;
                }
                texture.generation = self.current_generation;
                self.textures.insert(texture_id.0, texture);
            },
            None => {},
        }
    }
}

/// The end address that `upload_texture` records for a new texture: the
/// start address added to the end of its bytes.
pub open spec fn recorded_end(texture: Texture, texture_format: PvrTextureFmt, pixel_format: PvrPixelFmt) -> int {
    texture.addr + (texture.addr + texture.width * texture.height * size_bytes_per_pixel(pixel_format, texture_format))
}

/// Whether `t` is the entry that `upload_texture` makes for a new texture,
/// before conversion.
pub open spec fn new_entry(t: TextureMetadata, texture: Texture, texture_format: PvrTextureFmt, pixel_format: PvrPixelFmt, generation: u64) -> bool {
    &&& t.id == TextureId(texture_hash(texture, texture_format, pixel_format))
    &&& t.width == texture.width
    &&& t.height == texture.height
    &&& t.generation == generation
    &&& t.texture_format == texture_format
    &&& t.pixel_format == pixel_format
    &&& t.palette_addr == texture.palette_addr
    &&& t.data@ == Seq::<u8>::empty()
    &&& t.dirty
    &&& !t.needs_upload
    &&& t.addr == texture.addr
    &&& t.end_addr == recorded_end(texture, texture_format, pixel_format)
}

impl TextureAtlas {
    /// Makes sure a texture is in the cache and converted: an already cached
    /// one is stamped with the current generation, a new one is added and
    /// converted. Answers the texture's id.
    pub fn upload_texture(
        &mut self,
        texture: Texture,
        vram: &mut [u8],
        pram: &mut [u8],
        texture_format: PvrTextureFmt,
        pixel_format: PvrPixelFmt,
    ) -> (r: Result<TextureId, ()>)
        requires
            !old(self).textures@.contains_key(texture_hash(texture, texture_format, pixel_format)) ==> {
                &&& texture.width * texture.height <= u32::MAX
                &&& recorded_end(texture, texture_format, pixel_format) <= u32::MAX
                &&& forall|t: TextureMetadata| new_entry(t, texture, texture_format, pixel_format, old(self).current_generation)
                    ==> #[trigger] can_convert(t, old(vram)@)
            },
        ensures
            r == Ok::<TextureId, ()>(TextureId(texture_hash(texture, texture_format, pixel_format))),
            final(vram)@ == old(vram)@,
            final(pram)@ == old(pram)@,
            ({
                let id = texture_hash(texture, texture_format, pixel_format);
                if old(self).textures@.contains_key(id) {
                    final(self).textures@ == old(self).textures@.insert(
                        id,
                        (TextureMetadata { generation: old(self).current_generation, ..old(self).textures@[id] }),
                    )
                } else {
                    &&& final(self).textures@.dom() == old(self).textures@.dom().insert(id)
                    &&& forall|k: u64| k != id && #[trigger] old(self).textures@.contains_key(k)
                        ==> final(self).textures@[k] == old(self).textures@[k]
                    &&& exists|t: TextureMetadata| #[trigger] new_entry(t, texture, texture_format, pixel_format, old(self).current_generation)
                        && is_realized(final(self).textures@[id], t, old(vram)@, old(pram)@, old(self).current_generation)
                }
            }),
            final(self).data == old(self).data,
            final(self).current_generation == old(self).current_generation,
            final(self).width == old(self).width && final(self).height == old(self).height,
    {
        let texture_hash = Self::hash_texture(&texture, texture_format, pixel_format);
        let id = TextureId(texture_hash);

        if self.textures.contains_key(&id.0) {
            self.mark_texture(id);
            return Ok(id);
        }

        proof {
            assert(texture.width * texture.height * size_bytes_per_pixel(pixel_format, texture_format) <= u32::MAX);
        }
        let size = TextureMetadata::texture_size(texture.width, texture.height, pixel_format, texture_format);
        let end_addr = texture.addr + size as u32;

        let metadata = TextureMetadata {
            id: id,
            width: texture.width,
            height: texture.height,
            generation: self.current_generation,
            texture_format,
            pixel_format,
            data: Vec::new(),
            dirty: true,
            addr: texture.addr,
            palette_addr: texture.palette_addr,
            end_addr: texture.addr + end_addr,
            needs_upload: false,
        };
        let ghost entry = metadata;
        assert(new_entry(entry, texture, texture_format, pixel_format, old(self).current_generation));

        self.textures.insert(id.0, metadata);
        let ghost mid = self.textures@;
        self.realize_texture(id, vram, pram);
        assert forall|k: u64| k != texture_hash && #[trigger] old(self).textures@.contains_key(k)
            implies self.textures@[k] == old(self).textures@[k] by {
            assert(mid.contains_key(k));
        }
        assert(self.textures@.dom() =~= old(self).textures@.dom().insert(texture_hash));
        Ok(id)
    }
}

/// An ARGB1555 texel from its channels.
pub open spec fn argb1555(a: u16, r: u16, g: u16, b: u16) -> u16 {
    (a << 15u16) | (r << 10u16) | (g << 5u16) | b
}

/// An RGB565 texel from its channels.
pub open spec fn rgb565(r: u16, g: u16, b: u16) -> u16 {
    (r << 11u16) | (g << 5u16) | b
}

/// An ARGB4444 texel from its channels.
pub open spec fn argb4444(a: u16, r: u16, g: u16, b: u16) -> u16 {
    (a << 12u16) | (r << 8u16) | (g << 4u16) | b
}

/// The channels of a 16-bit texel read back from the fields they were put in.
pub proof fn lemma_channel_fields(a1: u16, r5: u16, g5: u16, b5: u16, g6: u16, a4: u16, r4: u16, g4: u16, b4: u16)
    by (bit_vector)
    requires
        a1 < 2,
        r5 < 32,
        g5 < 32,
        b5 < 32,
        g6 < 64,
        a4 < 16,
        r4 < 16,
        g4 < 16,
        b4 < 16,
    ensures
        ((((a1 << 15u16) | (r5 << 10u16) | (g5 << 5u16) | b5) & 0x1F) as u8) == b5 as u8,
        (((((a1 << 15u16) | (r5 << 10u16) | (g5 << 5u16) | b5) >> 5u16) & 0x1F) as u8) == g5 as u8,
        (((((a1 << 15u16) | (r5 << 10u16) | (g5 << 5u16) | b5) >> 10u16) & 0x1F) as u8) == r5 as u8,
        ((((a1 << 15u16) | (r5 << 10u16) | (g5 << 5u16) | b5) >> 15u16) & 1 == 1) == (a1 == 1),
        ((((r5 << 11u16) | (g6 << 5u16) | b5) & 0x1F) as u8) == b5 as u8,
        (((((r5 << 11u16) | (g6 << 5u16) | b5) >> 5u16) & 0x3F) as u8) == g6 as u8,
        (((((r5 << 11u16) | (g6 << 5u16) | b5) >> 11u16) & 0x1F) as u8) == r5 as u8,
        ((((a4 << 12u16) | (r4 << 8u16) | (g4 << 4u16) | b4) & 0xF) as u8) == b4 as u8,
        (((((a4 << 12u16) | (r4 << 8u16) | (g4 << 4u16) | b4) >> 4u16) & 0xF) as u8) == g4 as u8,
        (((((a4 << 12u16) | (r4 << 8u16) | (g4 << 4u16) | b4) >> 8u16) & 0xF) as u8) == r4 as u8,
        (((((a4 << 12u16) | (r4 << 8u16) | (g4 << 4u16) | b4) >> 12u16) & 0xF) as u8) == a4 as u8,
        (((a4 << 12u16) | (r4 << 8u16) | (g4 << 4u16) | b4) & 0xF) == b4,
        ((((a4 << 12u16) | (r4 << 8u16) | (g4 << 4u16) | b4) >> 4u16) & 0xF) == g4,
        ((((a4 << 12u16) | (r4 << 8u16) | (g4 << 4u16) | b4) >> 8u16) & 0xF) == r4,
        ((((a4 << 12u16) | (r4 << 8u16) | (g4 << 4u16) | b4) >> 12u16) & 0xF) == a4,
        ((((a1 << 15u16) | (r5 << 10u16) | (g5 << 5u16) | b5) >> 0u16) & 0x1F) == b5,
        ((((a1 << 15u16) | (r5 << 10u16) | (g5 << 5u16) | b5) >> 5u16) & 0x1F) == g5,
        ((((a1 << 15u16) | (r5 << 10u16) | (g5 << 5u16) | b5) >> 10u16) & 0x1F) == r5,
        ((((r5 << 11u16) | (g6 << 5u16) | b5) >> 0u16) & 0x1F) == b5,
        ((((r5 << 11u16) | (g6 << 5u16) | b5) >> 5u16) & 0x3F) == g6,
        ((((r5 << 11u16) | (g6 << 5u16) | b5) >> 11u16) & 0x1F) == r5,
{
}

/// Converted texels are blue, green, red, alpha, whatever the format: a
/// twiddled ARGB1555 texel made of channels a, r, g, b becomes its 5-bit
/// blue, green and red widened to bytes in that order, then alpha 255 or 0.
pub proof fn law_argb1555_texel_is_bgra(data: Seq<u8>, pram: Seq<u8>, sel: u32, w: u32, x: u32, y: u32, a: u16, r: u16, g: u16, b: u16)
    requires
        a < 2 && r < 32 && g < 32 && b < 32,
        le_half(data, morton(x, y) * 2) == argb1555(a, r, g, b),
    ensures
        texel_spec(Conversion::Twiddled1555, data, pram, sel, w, x, y) == seq![
            expand5(b as u8),
            expand5(g as u8),
            expand5(r as u8),
            if a == 1 { 255u8 } else { 0u8 },
        ],
{
    lemma_channel_fields(a, r, g, b, 0, 0, 0, 0, 0);
    assert(texel_spec(Conversion::Twiddled1555, data, pram, sel, w, x, y) =~= seq![
        expand5(b as u8),
        expand5(g as u8),
        expand5(r as u8),
        if a == 1 { 255u8 } else { 0u8 },
    ]);
}

/// A twiddled RGB565 texel made of channels r, g, b becomes its blue, green
/// and red widened to bytes in that order, then an opaque alpha.
pub proof fn law_rgb565_texel_is_bgra(data: Seq<u8>, pram: Seq<u8>, sel: u32, w: u32, x: u32, y: u32, r: u16, g: u16, b: u16)
    requires
        r < 32 && g < 64 && b < 32,
        le_half(data, morton(x, y) * 2) == rgb565(r, g, b),
    ensures
        texel_spec(Conversion::Twiddled565, data, pram, sel, w, x, y) == seq![
            expand5(b as u8),
            expand6(g as u8),
            expand5(r as u8),
            255u8,
        ],
{
    lemma_channel_fields(0, r, 0, b, g, 0, 0, 0, 0);
    assert(texel_spec(Conversion::Twiddled565, data, pram, sel, w, x, y) =~= seq![
        expand5(b as u8),
        expand6(g as u8),
        expand5(r as u8),
        255u8,
    ]);
}

/// A twiddled ARGB4444 texel made of channels a, r, g, b becomes blue,
/// green, red and alpha, each nibble repeated into a byte.
pub proof fn law_argb4444_texel_is_bgra(data: Seq<u8>, pram: Seq<u8>, sel: u32, w: u32, x: u32, y: u32, a: u16, r: u16, g: u16, b: u16)
    requires
        a < 16 && r < 16 && g < 16 && b < 16,
        le_half(data, morton(x, y) * 2) == argb4444(a, r, g, b),
    ensures
        texel_spec(Conversion::Twiddled4444, data, pram, sel, w, x, y) == seq![
            repeat4(b as u8),
            repeat4(g as u8),
            repeat4(r as u8),
            repeat4(a as u8),
        ],
{
    lemma_channel_fields(0, 0, 0, 0, 0, a, r, g, b);
    assert(texel_spec(Conversion::Twiddled4444, data, pram, sel, w, x, y) =~= seq![
        repeat4(b as u8),
        repeat4(g as u8),
        repeat4(r as u8),
        repeat4(a as u8),
    ]);
}

/// A linear 16-bit texel made of ARGB4444 channels a, r, g, b becomes
/// blue, green, red and alpha, each scaled from 4 to 8 bits (times 0x11).
pub proof fn law_linear4444_texel_is_bgra(data: Seq<u8>, pram: Seq<u8>, sel: u32, w: u32, x: u32, y: u32, a: u16, r: u16, g: u16, b: u16)
    requires
        a < 16 && r < 16 && g < 16 && b < 16,
        (y * w + x) * 2 + 1 < data.len(),
        le_half(data, (y * w + x) * 2) == argb4444(a, r, g, b),
    ensures
        texel_spec(Conversion::Linear4444, data, pram, sel, w, x, y) == seq![
            (b * 0x11) as u8,
            (g * 0x11) as u8,
            (r * 0x11) as u8,
            (a * 0x11) as u8,
        ],
{
    lemma_channel_fields(0, 0, 0, 0, 0, a, r, g, b);
    assert(texel_spec(Conversion::Linear4444, data, pram, sel, w, x, y) =~= seq![
        (b * 0x11) as u8,
        (g * 0x11) as u8,
        (r * 0x11) as u8,
        (a * 0x11) as u8,
    ]);
}

/// A paletted texel whose palette entry is made of ARGB4444 channels a, r,
/// g, b becomes blue, green, red and alpha, each scaled from 4 to 8 bits,
/// the same bytes as a linear ARGB4444 texel of those channels.
pub proof fn law_paletted_texel_is_bgra(data: Seq<u8>, pram: Seq<u8>, sel: u32, w: u32, x: u32, y: u32, a: u16, r: u16, g: u16, b: u16)
    requires
        a < 16 && r < 16 && g < 16 && b < 16,
        morton(x, y) < data.len(),
        ({
            let full = (((sel & 0x03) as u16) << 8u16) | (data[morton(x, y) as int] as u16);
            &&& full * 2 + 1 < pram.len()
            &&& le_half(pram, full * 2) == argb4444(a, r, g, b)
        }),
    ensures
        texel_spec(Conversion::Twiddled8Bpp, data, pram, sel, w, x, y) == seq![
            (b * 0x11) as u8,
            (g * 0x11) as u8,
            (r * 0x11) as u8,
            (a * 0x11) as u8,
        ],
{
    lemma_channel_fields(0, 0, 0, 0, 0, a, r, g, b);
    assert(b * 0xFF / 0xF == b * 0x11 && g * 0xFF / 0xF == g * 0x11 && r * 0xFF / 0xF == r * 0x11 && a * 0xFF
        / 0xF == a * 0x11);
    assert(texel_spec(Conversion::Twiddled8Bpp, data, pram, sel, w, x, y) =~= seq![
        (b * 0x11) as u8,
        (g * 0x11) as u8,
        (r * 0x11) as u8,
        (a * 0x11) as u8,
    ]);
}

} // verus!
