//! The DiscJuggler (.cdi) image format. Reading the track table is not
//! supported; what is read is the trailer at the end of the file: the
//! format version and the offset of the header.
use crate::hw::extensions::le_word;
use vstd::prelude::*;

verus! {

/// A disc image read from a .cdi file.
#[derive(Debug, Clone)]
pub struct CdiImage {
    pub tracks: Vec<Track>,
}

/// A track of a .cdi image.
#[derive(Copy, Clone, Debug)]
pub struct Track {}

/// The reader of .cdi images.
pub struct CdiParser;

/// The trailer version of DiscJuggler 2 images.
pub const CDI_VERSION2: u32 = 0x8000_0004;

/// The trailer version of DiscJuggler 3 images.
pub const CDI_VERSION3: u32 = 0x8000_0005;

/// The trailer version of DiscJuggler 3.5 images.
pub const CDI_VERSION35: u32 = 0x8000_0006;

/// Whether `v` is a trailer version this reader knows.
pub open spec fn is_cdi_version(v: u32) -> bool {
    v == CDI_VERSION2 || v == CDI_VERSION3 || v == CDI_VERSION35
}

impl CdiParser {
    /// Reads the last eight bytes of a .cdi file: the version (little
    /// endian) and then the header offset. Answers both when the version is
    /// a known one, `None` otherwise.
    pub fn read_trailer(last: [u8; 8]) -> (r: Option<(u32, u32)>)
        ensures
            r is Some <==> is_cdi_version(le_word(last@, 0)),
            r matches Some((v, h)) ==> v == le_word(last@, 0) && h == le_word(last@, 4),
    {
        let version = (last[0] as u32) | ((last[1] as u32) << 8) | ((last[2] as u32) << 16) | ((last[3] as u32)
            << 24);
        let header_offset = (last[4] as u32) | ((last[5] as u32) << 8) | ((last[6] as u32) << 16) | ((last[7] as u32)
            << 24);
        if version == CDI_VERSION2 || version == CDI_VERSION3 || version == CDI_VERSION35 {
            Some((version, header_offset))
        } else {
            None
        }
    }
}

} // verus!
