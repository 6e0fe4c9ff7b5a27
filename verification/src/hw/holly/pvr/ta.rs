//! The words that the tile accelerator receives: the parameter control word,
//! the ISP/TSP instruction words, the texture control word, and the
//! enumerations decoded from them.
use vstd::prelude::*;

verus! {

proof fn lemma_field_ranges(x: u32)
    by (bit_vector)
    ensures
        (x & 0x38000000) >> 27u32 <= 7,
        (x & 0x07000000) >> 24u32 <= 7,
        (x & 0xE0000000) >> 29u32 <= 7,
        (x & 0x00000030) >> 4u32 <= 3,
{
}

/// The pixel format of a texture.
#[derive(Debug, Clone, Copy, PartialEq, Eq, Hash, Structural)]
pub enum PvrPixelFmt {
    Argb1555,
    Rgb565,
    Argb4444,
    Yuv422,
    Bumpmap,
    FourBpp,
    EightBpp,
    Reserved,
}

impl PvrPixelFmt {
    /// The number of the format in a texture control word.
    pub open spec fn code(self) -> u32 {
        match self {
            PvrPixelFmt::Argb1555 => 0,
            PvrPixelFmt::Rgb565 => 1,
            PvrPixelFmt::Argb4444 => 2,
            PvrPixelFmt::Yuv422 => 3,
            PvrPixelFmt::Bumpmap => 4,
            PvrPixelFmt::FourBpp => 5,
            PvrPixelFmt::EightBpp => 6,
            PvrPixelFmt::Reserved => 7,
        }
    }

    /// The format with the given number.
    pub fn from_u32(value: u32) -> (r: Self)
        requires
            value <= 7,
        ensures
            r.code() == value,
    {
        match value {
            0x0 => PvrPixelFmt::Argb1555,
            0x1 => PvrPixelFmt::Rgb565,
            0x2 => PvrPixelFmt::Argb4444,
            0x3 => PvrPixelFmt::Yuv422,
            0x4 => PvrPixelFmt::Bumpmap,
            0x5 => PvrPixelFmt::FourBpp,
            0x6 => PvrPixelFmt::EightBpp,
            _ => PvrPixelFmt::Reserved,
        }
    }
}

/// How the texels of a texture are laid out in memory.
#[derive(Debug, Clone, Copy, PartialEq, Eq, Hash, Structural)]
pub enum PvrTextureFmt {
    Invalid,
    Twiddled,
    TwiddledMipmaps,
    Vq,
    VqMipmaps,
    Palette4Bpp,
    Palette4BppMipmaps,
    Palette8Bpp,
    Palette8BppMipmaps,
    BitmapRect,
    Bitmap,
    TwiddledRect,
}

/// The numbers that name a texture layout.
pub open spec fn is_texture_fmt_code(value: u32) -> bool {
    value <= 9 || value == 0xb || value == 0xd
}

impl PvrTextureFmt {
    /// The number of the layout.
    pub open spec fn code(self) -> u32 {
        match self {
            PvrTextureFmt::Invalid => 0x0,
            PvrTextureFmt::Twiddled => 0x1,
            PvrTextureFmt::TwiddledMipmaps => 0x2,
            PvrTextureFmt::Vq => 0x3,
            PvrTextureFmt::VqMipmaps => 0x4,
            PvrTextureFmt::Palette4Bpp => 0x5,
            PvrTextureFmt::Palette4BppMipmaps => 0x6,
            PvrTextureFmt::Palette8Bpp => 0x7,
            PvrTextureFmt::Palette8BppMipmaps => 0x8,
            PvrTextureFmt::BitmapRect => 0x9,
            PvrTextureFmt::Bitmap => 0xb,
            PvrTextureFmt::TwiddledRect => 0xd,
        }
    }

    /// The layout with the given number.
    pub fn from_u32(value: u32) -> (r: Self)
        requires
            is_texture_fmt_code(value),
        ensures
            r.code() == value,
    {
        match value {
            0x0 => PvrTextureFmt::Invalid,
            0x1 => PvrTextureFmt::Twiddled,
            0x2 => PvrTextureFmt::TwiddledMipmaps,
            0x3 => PvrTextureFmt::Vq,
            0x4 => PvrTextureFmt::VqMipmaps,
            0x5 => PvrTextureFmt::Palette4Bpp,
            0x6 => PvrTextureFmt::Palette4BppMipmaps,
            0x7 => PvrTextureFmt::Palette8Bpp,
            0x8 => PvrTextureFmt::Palette8BppMipmaps,
            0x9 => PvrTextureFmt::BitmapRect,
            0xb => PvrTextureFmt::Bitmap,
            _ => PvrTextureFmt::TwiddledRect,
        }
    }
}

/// The display list a parameter belongs to.
#[derive(Debug, Clone, Copy, Hash, PartialEq, Eq, Structural)]
pub enum PvrListType {
    Opaque,
    OpaqueModVol,
    Translucent,
    TranslucentModVol,
    PunchThrough,
    NumLists,
}

impl PvrListType {
    /// The number of the list.
    pub open spec fn code(self) -> u32 {
        match self {
            PvrListType::Opaque => 0,
            PvrListType::OpaqueModVol => 1,
            PvrListType::Translucent => 2,
            PvrListType::TranslucentModVol => 3,
            PvrListType::PunchThrough => 4,
            PvrListType::NumLists => 5,
        }
    }

    /// The list with the given number; numbers above 5 give the opaque list.
    pub fn from_u32(value: u32) -> (r: Self)
        ensures
            value <= 5 ==> r.code() == value,
            value > 5 ==> r == PvrListType::Opaque,
    {
        match value {
            0 => PvrListType::Opaque,
            1 => PvrListType::OpaqueModVol,
            2 => PvrListType::Translucent,
            3 => PvrListType::TranslucentModVol,
            4 => PvrListType::PunchThrough,
            5 => PvrListType::NumLists,
            _ => PvrListType::Opaque,
        }
    }
}

/// The kind of a parameter the tile accelerator receives.
#[derive(Debug, Clone, Copy, PartialEq, Eq, Structural)]
pub enum ParameterType {
    EndOfList,
    UserTileClip,
    ObjectList,
    Reserved0,
    PolyOrVol,
    Sprite,
    Reserved1,
    Vertex,
}

impl ParameterType {
    /// The number of the kind.
    pub open spec fn code(self) -> u32 {
        match self {
            ParameterType::EndOfList => 0,
            ParameterType::UserTileClip => 1,
            ParameterType::ObjectList => 2,
            ParameterType::Reserved0 => 3,
            ParameterType::PolyOrVol => 4,
            ParameterType::Sprite => 5,
            ParameterType::Reserved1 => 6,
            ParameterType::Vertex => 7,
        }
    }

    /// The kind with the given number.
    pub fn from_u32(value: u32) -> (r: Self)
        requires
            value <= 7,
        ensures
            r.code() == value,
    {
        match value {
            0 => ParameterType::EndOfList,
            1 => ParameterType::UserTileClip,
            2 => ParameterType::ObjectList,
            3 => ParameterType::Reserved0,
            4 => ParameterType::PolyOrVol,
            5 => ParameterType::Sprite,
            6 => ParameterType::Reserved1,
            _ => ParameterType::Vertex,
        }
    }
}

/// The layout of a vertex parameter.
#[derive(Debug, Clone, Copy, PartialEq, Eq, Structural)]
pub enum VertexType {
    Type0,
    Type1,
    Type2,
    Type3,
    Type4,
    Type5,
    Type6,
    Type7,
    Type8,
    Type9,
    Type10,
    Type11,
    Type12,
    Type13,
    Type14,
    SpriteType0,
    SpriteType1,
    ModVol,
}

impl VertexType {
    /// The number of the layout.
    pub open spec fn code(self) -> u32 {
        match self {
            VertexType::Type0 => 0,
            VertexType::Type1 => 1,
            VertexType::Type2 => 2,
            VertexType::Type3 => 3,
            VertexType::Type4 => 4,
            VertexType::Type5 => 5,
            VertexType::Type6 => 6,
            VertexType::Type7 => 7,
            VertexType::Type8 => 8,
            VertexType::Type9 => 9,
            VertexType::Type10 => 10,
            VertexType::Type11 => 11,
            VertexType::Type12 => 12,
            VertexType::Type13 => 13,
            VertexType::Type14 => 14,
            VertexType::SpriteType0 => 15,
            VertexType::SpriteType1 => 16,
            VertexType::ModVol => 17,
        }
    }

    /// The layout with the given number (the modifier volume layout has none).
    pub fn from_u32(value: u32) -> (r: Self)
        requires
            value <= 16,
        ensures
            r.code() == value,
    {
        match value {
            0 => VertexType::Type0,
            1 => VertexType::Type1,
            2 => VertexType::Type2,
            3 => VertexType::Type3,
            4 => VertexType::Type4,
            5 => VertexType::Type5,
            6 => VertexType::Type6,
            7 => VertexType::Type7,
            8 => VertexType::Type8,
            9 => VertexType::Type9,
            10 => VertexType::Type10,
            11 => VertexType::Type11,
            12 => VertexType::Type12,
            13 => VertexType::Type13,
            14 => VertexType::Type14,
            15 => VertexType::SpriteType0,
            _ => VertexType::SpriteType1,
        }
    }
}

/// The layout of a polygon (global) parameter.
#[derive(Debug, Clone, Copy, PartialEq, Eq, Structural)]
pub enum PolygonType {
    Type0,
    Type1,
    Type2,
    Type3,
    Type4,
    Sprite,
    ModVol,
}

impl PolygonType {
    /// The number of the layout.
    pub open spec fn code(self) -> u32 {
        match self {
            PolygonType::Type0 => 0,
            PolygonType::Type1 => 1,
            PolygonType::Type2 => 2,
            PolygonType::Type3 => 3,
            PolygonType::Type4 => 4,
            PolygonType::Sprite => 5,
            PolygonType::ModVol => 6,
        }
    }

    /// The layout with the given number, for the five numbered polygon layouts.
    pub fn from_u32(value: u32) -> (r: Self)
        requires
            value <= 4,
        ensures
            r.code() == value,
    {
        match value {
            0 => PolygonType::Type0,
            1 => PolygonType::Type1,
            2 => PolygonType::Type2,
            3 => PolygonType::Type3,
            _ => PolygonType::Type4,
        }
    }
}

/// The texture control word: the texture's address and format, read either
/// as an `RGBYUVBumpmap` word or as a `Palette` word.
#[derive(Debug, Clone, Copy, PartialEq, Eq, Structural)]
pub struct TextureControlWord {
    pub full: u32,
}

/// The layout of the texture that a texture control word describes: VQ
/// compressed, twiddled, or a plain bitmap.
pub open spec fn texture_fmt_of(w: u32) -> PvrTextureFmt {
    let pix = (w & 0x38000000) >> 27u32;
    let compressed = w & 0x40000000 != 0;
    let mipmaps = w & 0x80000000 != 0;
    let twiddled = w & 0x04000000 == 0 || pix == 5 || pix == 6;
    if compressed && !twiddled {
        if mipmaps { PvrTextureFmt::VqMipmaps } else { PvrTextureFmt::Vq }
    } else if !compressed && twiddled {
        if mipmaps { PvrTextureFmt::TwiddledMipmaps } else { PvrTextureFmt::Twiddled }
    } else {
        PvrTextureFmt::Bitmap
    }
}

/// The pixel format that a texture control word names.
pub open spec fn pixel_fmt_of(w: u32) -> PvrPixelFmt {
    let c = (w & 0x38000000) >> 27u32;
    if c == 0 {
        PvrPixelFmt::Argb1555
    } else if c == 1 {
        PvrPixelFmt::Rgb565
    } else if c == 2 {
        PvrPixelFmt::Argb4444
    } else if c == 3 {
        PvrPixelFmt::Yuv422
    } else if c == 4 {
        PvrPixelFmt::Bumpmap
    } else if c == 5 {
        PvrPixelFmt::FourBpp
    } else if c == 6 {
        PvrPixelFmt::EightBpp
    } else {
        PvrPixelFmt::Reserved
    }
}

impl TextureControlWord {
    pub fn new(value: u32) -> (r: Self)
        ensures
            r.full == value,
    {
        Self { full: value }
    }

    /// The word read as the control word of a non-palette texture.
    pub fn rgb_yuv_bumpmap(&self) -> (r: RGBYUVBumpmap)
        ensures
            r.bits == self.full,
    {
        RGBYUVBumpmap { bits: self.full }
    }

    /// The word read as the control word of a palette texture.
    pub fn palette(&self) -> (r: Palette)
        ensures
            r.bits == self.full,
    {
        Palette { bits: self.full }
    }

    /// Pixel format.
    pub fn pixel_fmt(&self) -> (r: PvrPixelFmt)
        ensures
            r.code() == (self.full & 0x38000000) >> 27u32,
            r == pixel_fmt_of(self.full),
    {
        proof { lemma_field_ranges(self.full); }
        PvrPixelFmt::from_u32((self.full & 0x38000000) >> 27u32)
    }

    /// Texture address in 64-bit units.
    pub fn texture_addr(&self) -> (r: u32)
        ensures
            r == self.full & 0x1FFFFF,
    {
        self.full & 0x1FFFFF
    }

    /// Whether the texture is VQ compressed.
    pub fn vq_compressed(&self) -> (r: bool)
        ensures
            r == (self.full & 0x40000000 != 0),
    {
        (self.full & 0x40000000) != 0
    }

    /// Whether the texels are stored twiddled: so for a non-scan-order
    /// texture and for all palette textures.
    fn twiddled(&self) -> (r: bool)
        ensures
            r == (self.full & 0x04000000 == 0 || (self.full & 0x38000000) >> 27u32 == 5
                || (self.full & 0x38000000) >> 27u32 == 6),
    {
        let fmt = self.pixel_fmt();
        !self.scan_order() || fmt == PvrPixelFmt::EightBpp || fmt == PvrPixelFmt::FourBpp
    }

    /// Set for a non-twiddled (scan order) texture.
    pub fn scan_order(&self) -> (r: bool)
        ensures
            r == (self.full & 0x04000000 != 0),
    {
        (self.full & 0x04000000) != 0
    }

    /// Whether the texture has mipmaps.
    pub fn mip_mapped(&self) -> (r: bool)
        ensures
            r == (self.full & 0x80000000 != 0),
    {
        (self.full & 0x80000000) != 0
    }

    /// The layout of the texture.
    pub fn texture_fmt(&self) -> (r: PvrTextureFmt)
        ensures
            r == texture_fmt_of(self.full),
    {
        let compressed = self.vq_compressed();
        let twiddled = self.twiddled();
        let mipmaps = self.mip_mapped();

        match (self.pixel_fmt(), compressed, twiddled, mipmaps) {
            (PvrPixelFmt::FourBpp, false, false, true) => PvrTextureFmt::Palette4BppMipmaps,
            (PvrPixelFmt::FourBpp, false, false, false) => PvrTextureFmt::Palette4BppMipmaps,
            (PvrPixelFmt::EightBpp, false, false, true) => PvrTextureFmt::Palette8BppMipmaps,
            (PvrPixelFmt::EightBpp, false, false, false) => PvrTextureFmt::Palette8BppMipmaps,
            (_, true, false, true) => PvrTextureFmt::VqMipmaps,
            (_, true, false, false) => PvrTextureFmt::Vq,
            (_, false, true, true) => PvrTextureFmt::TwiddledMipmaps,
            (_, false, true, false) => PvrTextureFmt::Twiddled,
            _ => PvrTextureFmt::Bitmap,
        }
    }
}

/// The texture control word of a non-palette texture.
#[derive(Debug, Clone, Copy, PartialEq, Eq, Structural)]
pub struct RGBYUVBumpmap {
    pub bits: u32,
}

impl RGBYUVBumpmap {
    pub fn new(value: u32) -> (r: Self)
        ensures
            r.bits == value,
    {
        Self { bits: value }
    }

    /// Texture address in 64-bit units.
    pub fn texture_addr(&self) -> (r: u32)
        ensures
            r == (self.bits & 0x1FFFFF),
    {
        (self.bits & 0x1FFFFF)
    }

    /// Reserved bits.
    pub fn reserved(&self) -> (r: u32)
        ensures
            r == (self.bits & 0x01E00000) >> 21u32,
    {
        (self.bits & 0x01E00000) >> 21u32
    }

    /// Whether the stride register gives the width.
    pub fn stride_select(&self) -> (r: bool)
        ensures
            r == (self.bits & 0x02000000 != 0),
    {
        (self.bits & 0x02000000) != 0
    }

    /// Set for a non-twiddled (scan order) texture.
    pub fn scan_order(&self) -> (r: bool)
        ensures
            r == (self.bits & 0x04000000 != 0),
    {
        (self.bits & 0x04000000) != 0
    }

    /// Pixel format number.
    pub fn pixel_fmt(&self) -> (r: u32)
        ensures
            r == (self.bits & 0x38000000) >> 27u32,
    {
        (self.bits & 0x38000000) >> 27u32
    }

    /// Whether the texture is VQ compressed.
    pub fn vq_compressed(&self) -> (r: bool)
        ensures
            r == (self.bits & 0x40000000 != 0),
    {
        (self.bits & 0x40000000) != 0
    }

    /// Whether the texture has mipmaps.
    pub fn mip_mapped(&self) -> (r: bool)
        ensures
            r == (self.bits & 0x80000000 != 0),
    {
        (self.bits & 0x80000000) != 0
    }
}

/// The texture control word of a palette texture.
#[derive(Debug, Clone, Copy, PartialEq, Eq, Structural)]
pub struct Palette {
    pub bits: u32,
}

impl Palette {
    pub fn new(value: u32) -> (r: Self)
        ensures
            r.bits == value,
    {
        Self { bits: value }
    }

    /// Texture address in 64-bit units.
    pub fn texture_addr(&self) -> (r: u32)
        ensures
            r == (self.bits & 0x1FFFFF),
    {
        (self.bits & 0x1FFFFF)
    }

    /// Which part of the palette is used.
    pub fn palette_selector(&self) -> (r: u32)
        ensures
            r == (self.bits & 0x03E00000) >> 21u32,
    {
        (self.bits & 0x03E00000) >> 21u32
    }

    /// Pixel format number.
    pub fn pixel_fmt(&self) -> (r: u32)
        ensures
            r == (self.bits & 0x38000000) >> 27u32,
    {
        (self.bits & 0x38000000) >> 27u32
    }

    /// Whether the texture is VQ compressed.
    pub fn vq_compressed(&self) -> (r: bool)
        ensures
            r == (self.bits & 0x40000000 != 0),
    {
        (self.bits & 0x40000000) != 0
    }

    /// Whether the texture has mipmaps.
    pub fn mip_mapped(&self) -> (r: bool)
        ensures
            r == (self.bits & 0x80000000 != 0),
    {
        (self.bits & 0x80000000) != 0
    }
}

/// The ISP instruction word of a polygon.
#[derive(Debug, Clone, Copy, PartialEq, Eq, Structural)]
pub struct ImageSynthesisProcessorWord {
    pub full: u32,
}

impl ImageSynthesisProcessorWord {
    pub fn new(value: u32) -> (r: Self)
        ensures
            r.full == value,
    {
        Self { full: value }
    }

    /// Depth calculation control.
    pub fn dcalc_ctrl(&self) -> (r: bool)
        ensures
            r == (self.full & 0x00100000 != 0),
    {
        (self.full & 0x00100000) != 0
    }

    /// Cache bypass.
    pub fn cache_bypass(&self) -> (r: bool)
        ensures
            r == (self.full & 0x00200000 != 0),
    {
        (self.full & 0x00200000) != 0
    }

    /// Texture coordinates are 16 bits wide.
    pub fn uv_16bit(&self) -> (r: bool)
        ensures
            r == (self.full & 0x00400000 != 0),
    {
        (self.full & 0x00400000) != 0
    }

    /// Gouraud shading.
    pub fn gouraud(&self) -> (r: bool)
        ensures
            r == (self.full & 0x00800000 != 0),
    {
        (self.full & 0x00800000) != 0
    }

    /// Offset colour in use.
    pub fn offset(&self) -> (r: bool)
        ensures
            r == (self.full & 0x01000000 != 0),
    {
        (self.full & 0x01000000) != 0
    }

    /// Textured.
    pub fn texture(&self) -> (r: bool)
        ensures
            r == (self.full & 0x02000000 != 0),
    {
        (self.full & 0x02000000) != 0
    }

    /// Depth writes disabled.
    pub fn z_write_disable(&self) -> (r: bool)
        ensures
            r == (self.full & 0x04000000 != 0),
    {
        (self.full & 0x04000000) != 0
    }

    /// Culling mode.
    pub fn culling_mode(&self) -> (r: u32)
        ensures
            r == (self.full & 0x18000000) >> 27u32,
    {
        (self.full & 0x18000000) >> 27u32
    }

    /// Depth compare mode.
    pub fn depth_compare_mode(&self) -> (r: u32)
        ensures
            r == (self.full & 0xE0000000) >> 29u32,
    {
        (self.full & 0xE0000000) >> 29u32
    }
}

/// The TSP instruction word of a polygon.
#[derive(Debug, Clone, Copy, PartialEq, Eq, Structural)]
pub struct TextureShadingProcessorWord {
    pub full: u32,
}

impl TextureShadingProcessorWord {
    pub fn new(value: u32) -> (r: Self)
        ensures
            r.full == value,
    {
        Self { full: value }
    }

    /// Texture height as a power of two from 8.
    pub fn texture_v_size(&self) -> (r: u32)
        ensures
            r == (self.full & 0x00000007),
    {
        (self.full & 0x00000007)
    }

    /// Texture width as a power of two from 8.
    pub fn texture_u_size(&self) -> (r: u32)
        ensures
            r == (self.full & 0x00000038) >> 3u32,
    {
        (self.full & 0x00000038) >> 3u32
    }

    /// Texture shading instruction.
    pub fn texture_shading_instr(&self) -> (r: u32)
        ensures
            r == (self.full & 0x000000C0) >> 6u32,
    {
        (self.full & 0x000000C0) >> 6u32
    }

    /// Mipmap D adjustment.
    pub fn mipmap_d_adjust(&self) -> (r: u32)
        ensures
            r == (self.full & 0x00000F00) >> 8u32,
    {
        (self.full & 0x00000F00) >> 8u32
    }

    /// Super-sampling.
    pub fn super_sample_texture(&self) -> (r: bool)
        ensures
            r == (self.full & 0x00001000 != 0),
    {
        (self.full & 0x00001000) != 0
    }

    /// Filter mode.
    pub fn filter_mode(&self) -> (r: u32)
        ensures
            r == (self.full & 0x00006000) >> 13u32,
    {
        (self.full & 0x00006000) >> 13u32
    }

    /// Clamp in V.
    pub fn clamp_v(&self) -> (r: bool)
        ensures
            r == (self.full & 0x00008000 != 0),
    {
        (self.full & 0x00008000) != 0
    }

    /// Clamp in U.
    pub fn clamp_u(&self) -> (r: bool)
        ensures
            r == (self.full & 0x00010000 != 0),
    {
        (self.full & 0x00010000) != 0
    }

    /// Flip in V.
    pub fn flip_v(&self) -> (r: bool)
        ensures
            r == (self.full & 0x00020000 != 0),
    {
        (self.full & 0x00020000) != 0
    }

    /// Flip in U.
    pub fn flip_u(&self) -> (r: bool)
        ensures
            r == (self.full & 0x00040000 != 0),
    {
        (self.full & 0x00040000) != 0
    }

    /// Texture alpha ignored.
    pub fn ignore_tex_alpha(&self) -> (r: bool)
        ensures
            r == (self.full & 0x00080000 != 0),
    {
        (self.full & 0x00080000) != 0
    }

    /// Vertex alpha in use.
    pub fn use_alpha(&self) -> (r: bool)
        ensures
            r == (self.full & 0x00100000 != 0),
    {
        (self.full & 0x00100000) != 0
    }

    /// Colour clamping.
    pub fn color_clamp(&self) -> (r: bool)
        ensures
            r == (self.full & 0x00200000 != 0),
    {
        (self.full & 0x00200000) != 0
    }

    /// Fog control.
    pub fn fog_control(&self) -> (r: u32)
        ensures
            r == (self.full & 0x00C00000) >> 22u32,
    {
        (self.full & 0x00C00000) >> 22u32
    }

    /// Destination selection.
    pub fn dst_select(&self) -> (r: bool)
        ensures
            r == (self.full & 0x01000000 != 0),
    {
        (self.full & 0x01000000) != 0
    }

    /// Source selection.
    pub fn src_select(&self) -> (r: bool)
        ensures
            r == (self.full & 0x02000000 != 0),
    {
        (self.full & 0x02000000) != 0
    }

    /// Destination alpha instruction.
    pub fn dst_alpha_instr(&self) -> (r: u32)
        ensures
            r == (self.full & 0x1C000000) >> 26u32,
    {
        (self.full & 0x1C000000) >> 26u32
    }

    /// Source alpha instruction.
    pub fn src_alpha_instr(&self) -> (r: u32)
        ensures
            r == (self.full & 0xE0000000) >> 29u32,
    {
        (self.full & 0xE0000000) >> 29u32
    }
}

/// The parameter control word that heads every parameter sent to the tile
/// accelerator.
#[derive(Debug, Clone, Copy, PartialEq, Eq, Structural)]
pub struct ParameterControlWord {
    pub full: u32,
}

/// The list-type field of a parameter control word.
pub open spec fn pcw_list_code(w: u32) -> u32 {
    (w & 0x07000000) >> 24u32
}

/// The parameter-type field of a parameter control word.
pub open spec fn pcw_para_code(w: u32) -> u32 {
    (w & 0xE0000000) >> 29u32
}

/// The colour-type field of a parameter control word.
pub open spec fn pcw_col_type(w: u32) -> u32 {
    (w & 0x00000030) >> 4u32
}

/// Whether the list-type field names one of the two modifier volume lists.
pub open spec fn pcw_is_modvol(w: u32) -> bool {
    pcw_list_code(w) == 1 || pcw_list_code(w) == 3
}

/// The vertex layout that follows a global parameter with control word `w`.
pub open spec fn vertex_type_of(w: u32) -> VertexType {
    let tex = w & 0x00000008 != 0;
    let uv16 = w & 0x00000001 != 0;
    let vol = w & 0x00000040 != 0;
    let col = pcw_col_type(w);
    if pcw_is_modvol(w) {
        VertexType::ModVol
    } else if pcw_para_code(w) == 5 {
        if tex { VertexType::SpriteType1 } else { VertexType::SpriteType0 }
    } else if vol && tex && col == 0 {
        if uv16 { VertexType::Type12 } else { VertexType::Type11 }
    } else if vol && tex && (col == 2 || col == 3) {
        if uv16 { VertexType::Type14 } else { VertexType::Type13 }
    } else if vol && col == 0 {
        VertexType::Type9
    } else if vol && (col == 2 || col == 3) {
        VertexType::Type10
    } else if tex && col == 0 {
        if uv16 { VertexType::Type4 } else { VertexType::Type3 }
    } else if tex && col == 1 {
        if uv16 { VertexType::Type6 } else { VertexType::Type5 }
    } else if tex && (col == 2 || col == 3) {
        if uv16 { VertexType::Type8 } else { VertexType::Type7 }
    } else if col == 1 {
        VertexType::Type1
    } else if col == 2 || col == 3 {
        VertexType::Type2
    } else {
        VertexType::Type0
    }
}

/// The polygon layout of a global parameter with control word `w`.
pub open spec fn polygon_type_of(w: u32) -> PolygonType {
    let tex = w & 0x00000008 != 0;
    let off = w & 0x00000004 != 0;
    let vol = w & 0x00000040 != 0;
    let col = pcw_col_type(w);
    if pcw_is_modvol(w) {
        PolygonType::ModVol
    } else if pcw_para_code(w) == 5 {
        PolygonType::Sprite
    } else if vol && (col == 0 || col == 3) {
        PolygonType::Type3
    } else if vol && col == 2 {
        PolygonType::Type4
    } else if col == 2 && tex && off {
        PolygonType::Type2
    } else if col == 2 {
        PolygonType::Type1
    } else {
        PolygonType::Type0
    }
}

/// How many 32-byte words a parameter with control word `w` takes, given the
/// vertex layout in force.
pub open spec fn expected_words_of(w: u32, vt: VertexType) -> usize {
    let para = pcw_para_code(w);
    if para == 0 || para == 1 || para == 2 || para == 5 {
        1
    } else if para == 4 {
        if vt == VertexType::Type0 || vt == VertexType::Type1 || vt == VertexType::Type3 { 1 } else { 2 }
    } else if para == 7 {
        if vt == VertexType::Type5 || vt == VertexType::Type6 || vt == VertexType::Type11
            || vt == VertexType::Type12 || vt == VertexType::Type13 || vt == VertexType::Type14
            || vt == VertexType::SpriteType0 || vt == VertexType::SpriteType1 || vt == VertexType::ModVol {
            2
        } else {
            1
        }
    } else {
        0
    }
}

impl ParameterControlWord {
    pub fn new(value: u32) -> (r: Self)
        ensures
            r.full == value,
    {
        Self { full: value }
    }

    /// How many 32-byte words this parameter takes, given the vertex layout
    /// in force.
    pub fn expected_words(&self, vert_type: VertexType) -> (r: usize)
        ensures
            r == expected_words_of(self.full, vert_type),
    {
        match self.para_type() {
            ParameterType::EndOfList => 1,
            ParameterType::UserTileClip => 1,
            ParameterType::ObjectList => 1,
            ParameterType::PolyOrVol
                if (vert_type == VertexType::Type0 || vert_type == VertexType::Type1
                    || vert_type == VertexType::Type3) => {
                1
            },
            ParameterType::PolyOrVol => 2,
            ParameterType::Sprite => 1,
            ParameterType::Vertex => {
                if vert_type == VertexType::Type0 || vert_type == VertexType::Type1
                    || vert_type == VertexType::Type2 || vert_type == VertexType::Type3
                    || vert_type == VertexType::Type4 || vert_type == VertexType::Type7
                    || vert_type == VertexType::Type8 || vert_type == VertexType::Type9
                    || vert_type == VertexType::Type10 {
                    1
                } else {
                    2
                }
            },
            _ => 0,
        }
    }

    /// The vertex layout that follows this global parameter.
    pub fn vert_type(&self) -> (r: VertexType)
        ensures
            r == vertex_type_of(self.full),
    {
        if self.list_type() == PvrListType::OpaqueModVol
            || self.list_type() == PvrListType::TranslucentModVol {
            return VertexType::ModVol;
        }
        if self.para_type() == ParameterType::Sprite {
            return if self.texture() {
                VertexType::SpriteType1
            } else {
                VertexType::SpriteType0
            };
        }
        if self.volume() {
            if self.texture() {
                if self.col_type() == 0 {
                    return if self.uv_16bit() {
                        VertexType::Type12
                    } else {
                        VertexType::Type11
                    };
                }
                if self.col_type() == 2 || self.col_type() == 3 {
                    return if self.uv_16bit() {
                        VertexType::Type14
                    } else {
                        VertexType::Type13
                    };
                }
            }
            if self.col_type() == 0 {
                return VertexType::Type9;
            }
            if self.col_type() == 2 || self.col_type() == 3 {
                return VertexType::Type10;
            }
        }
        if self.texture() {
            if self.col_type() == 0 {
                return if self.uv_16bit() {
                    VertexType::Type4
                } else {
                    VertexType::Type3
                };
            }
            if self.col_type() == 1 {
                return if self.uv_16bit() {
                    VertexType::Type6
                } else {
                    VertexType::Type5
                };
            }
            if self.col_type() == 2 || self.col_type() == 3 {
                return if self.uv_16bit() {
                    VertexType::Type8
                } else {
                    VertexType::Type7
                };
            }
        }
        if self.col_type() == 0 {
            return VertexType::Type0;
        }
        if self.col_type() == 1 {
            return VertexType::Type1;
        }
        if self.col_type() == 2 || self.col_type() == 3 {
            return VertexType::Type2;
        }
        VertexType::Type0
    }

    /// The polygon layout of this global parameter.
    pub fn poly_type(&self) -> (r: PolygonType)
        ensures
            r == polygon_type_of(self.full),
    {
        if self.list_type() == PvrListType::OpaqueModVol
            || self.list_type() == PvrListType::TranslucentModVol {
            return PolygonType::ModVol;
        }
        if self.para_type() == ParameterType::Sprite {
            return PolygonType::Sprite;
        }
        if self.volume() {
            if self.col_type() == 0 || self.col_type() == 3 {
                return PolygonType::Type3;
            }
            if self.col_type() == 2 {
                return PolygonType::Type4;
            }
        }
        if self.col_type() == 0 || self.col_type() == 1 || self.col_type() == 3 {
            return PolygonType::Type0;
        }
        if self.col_type() == 2 && self.texture() && !self.offset() {
            return PolygonType::Type1;
        }
        if self.col_type() == 2 && self.texture() && self.offset() {
            return PolygonType::Type2;
        }
        if self.col_type() == 2 && !self.texture() {
            return PolygonType::Type1;
        }
        PolygonType::Type0
    }

    /// Texture coordinates are 16 bits wide.
    pub fn uv_16bit(&self) -> (r: bool)
        ensures
            r == (self.full & 0x00000001 != 0),
    {
        (self.full & 0x00000001) != 0
    }
    /// Gouraud shading.
    pub fn gouraud(&self) -> (r: bool)
        ensures
            r == (self.full & 0x00000002 != 0),
    {
        (self.full & 0x00000002) != 0
    }
    /// Offset colour in use.
    pub fn offset(&self) -> (r: bool)
        ensures
            r == (self.full & 0x00000004 != 0),
    {
        (self.full & 0x00000004) != 0
    }
    /// Textured.
    pub fn texture(&self) -> (r: bool)
        ensures
            r == (self.full & 0x00000008 != 0),
    {
        (self.full & 0x00000008) != 0
    }
    /// Colour type.
    pub fn col_type(&self) -> (r: u32)
        ensures
            r == (self.full & 0x00000030) >> 4u32,
    {
        (self.full & 0x00000030) >> 4u32
    }
    /// Two volumes.
    pub fn volume(&self) -> (r: bool)
        ensures
            r == (self.full & 0x00000040 != 0),
    {
        (self.full & 0x00000040) != 0
    }
    /// Shadow.
    pub fn shadow(&self) -> (r: bool)
        ensures
            r == (self.full & 0x00000080 != 0),
    {
        (self.full & 0x00000080) != 0
    }
    /// Reserved object control bits.
    pub fn reserved0(&self) -> (r: u32)
        ensures
            r == (self.full & 0x0000FF00) >> 8u32,
    {
        (self.full & 0x0000FF00) >> 8u32
    }
    /// User clipping mode.
    pub fn user_clip(&self) -> (r: u32)
        ensures
            r == (self.full & 0x00030000) >> 16u32,
    {
        (self.full & 0x00030000) >> 16u32
    }
    /// Strip length.
    pub fn strip_len(&self) -> (r: u32)
        ensures
            r == (self.full & 0x000C0000) >> 18u32,
    {
        (self.full & 0x000C0000) >> 18u32
    }
    /// Reserved group control bits.
    pub fn reserved1(&self) -> (r: u32)
        ensures
            r == (self.full & 0x00700000) >> 20u32,
    {
        (self.full & 0x00700000) >> 20u32
    }
    /// Group control in use.
    pub fn group_en(&self) -> (r: bool)
        ensures
            r == (self.full & 0x00800000 != 0),
    {
        (self.full & 0x00800000) != 0
    }
    /// Reserved parameter control bit.
    pub fn reserved2(&self) -> (r: u32)
        ensures
            r == (self.full & 0x08000000) >> 27u32,
    {
        (self.full & 0x08000000) >> 27u32
    }
    /// Last vertex of a strip.
    pub fn end_of_strip(&self) -> (r: bool)
        ensures
            r == (self.full & 0x10000000 != 0),
    {
        (self.full & 0x10000000) != 0
    }

    /// The display list the parameter belongs to.
    pub fn list_type(&self) -> (r: PvrListType)
        ensures
            pcw_list_code(self.full) <= 5 ==> r.code() == pcw_list_code(self.full),
            pcw_list_code(self.full) > 5 ==> r == PvrListType::Opaque,
    {
        PvrListType::from_u32((self.full & 0x07000000) >> 24u32)
    }

    /// The kind of the parameter.
    pub fn para_type(&self) -> (r: ParameterType)
        ensures
            r.code() == pcw_para_code(self.full),
    {
        proof { lemma_field_ranges(self.full); }
        ParameterType::from_u32((self.full & 0xE0000000) >> 29u32)
    }
}

/// A polygon parameter without face colours (layout 0).
#[derive(Debug, Clone, Copy)]
pub struct PolygonType0 {
    pub pcw: ParameterControlWord,
    pub isp: ImageSynthesisProcessorWord,
    pub tsp: TextureShadingProcessorWord,
    pub tcw: TextureControlWord,
    pub ignore_0: u32,
    pub ignore_1: u32,
    pub sdma_data_size: u32,
    pub sdma_next_addr: u32,
}

/// A polygon parameter with two volumes (layout 3).
#[derive(Debug, Clone, Copy)]
pub struct PolygonType3 {
    pub pcw: ParameterControlWord,
    pub isp: ImageSynthesisProcessorWord,
    pub tsp0: TextureShadingProcessorWord,
    pub tcw0: TextureControlWord,
    pub tsp1: TextureShadingProcessorWord,
    pub tcw1: TextureControlWord,
    pub sdma_data_size: u32,
    pub sdma_next_addr: u32,
}

/// A sprite parameter.
#[derive(Debug, Clone, Copy)]
pub struct Sprite {
    pub pcw: ParameterControlWord,
    pub isp: ImageSynthesisProcessorWord,
    pub tsp: TextureShadingProcessorWord,
    pub tcw: TextureControlWord,
    pub base_color: u32,
    pub offset_color: u32,
    pub sdma_data_size: u32,
    pub sdma_next_addr: u32,
}

/// A modifier volume parameter.
#[derive(Debug, Clone, Copy)]
pub struct ModVol {
    pub pcw: ParameterControlWord,
    pub isp: ImageSynthesisProcessorWord,
    pub reserved: [u32; 6],
}

/// A pixel format's number names it alone, and is one `from_u32` takes:
/// reading back the number a format is written as gives the format.
pub proof fn law_pixel_format_roundtrip(a: PvrPixelFmt, b: PvrPixelFmt)
    ensures
        a.code() <= 7,
        a.code() == b.code() ==> a == b,
{
}

/// A texture layout's number names it alone, and is one `from_u32` takes.
pub proof fn law_texture_format_roundtrip(a: PvrTextureFmt, b: PvrTextureFmt)
    ensures
        is_texture_fmt_code(a.code()),
        a.code() == b.code() ==> a == b,
{
}

/// A display list's number names it alone, and is one `from_u32` takes.
pub proof fn law_list_type_roundtrip(a: PvrListType, b: PvrListType)
    ensures
        a.code() <= 5,
        a.code() == b.code() ==> a == b,
{
}

} // verus!
