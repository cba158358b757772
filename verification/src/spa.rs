//! The SPA identifiers and records that capture logic reads, as plain values.
use vstd::prelude::*;

verus! {

/// `SPA_PARAM_Format`: the parameter that carries a negotiated format.
pub const SPA_PARAM_FORMAT: u32 = 4;

/// `SPA_DATA_MemPtr`: buffer memory addressed by a pointer.
pub const SPA_DATA_MEM_PTR: u32 = 1;

/// `SPA_DATA_MemFd`: buffer memory behind a mappable descriptor.
pub const SPA_DATA_MEM_FD: u32 = 2;

/// `SPA_DATA_DmaBuf`: buffer memory behind a DMA-BUF descriptor.
pub const SPA_DATA_DMA_BUF: u32 = 3;

/// `SPA_CHUNK_FLAG_CORRUPTED`: the bytes of the chunk are not to be used.
pub const SPA_CHUNK_FLAG_CORRUPTED: i32 = 1;

/// `SPA_CHUNK_FLAG_EMPTY`: the chunk carries no media.
pub const SPA_CHUNK_FLAG_EMPTY: i32 = 2;

/// `SPA_VIDEO_FORMAT_UNKNOWN`.
pub const SPA_VIDEO_FORMAT_UNKNOWN: u32 = 0;

/// `SPA_VIDEO_FORMAT_RGBx`: bytes red, green, blue, unused.
pub const SPA_VIDEO_FORMAT_RGBX: u32 = 7;

/// `SPA_VIDEO_FORMAT_BGRx`: bytes blue, green, red, unused.
pub const SPA_VIDEO_FORMAT_BGRX: u32 = 8;

/// `SPA_VIDEO_FORMAT_xRGB`: bytes unused, red, green, blue.
pub const SPA_VIDEO_FORMAT_XRGB: u32 = 9;

/// `SPA_VIDEO_FORMAT_xBGR`: bytes unused, blue, green, red.
pub const SPA_VIDEO_FORMAT_XBGR: u32 = 10;

/// `SPA_VIDEO_FORMAT_RGBA`: bytes red, green, blue, alpha.
pub const SPA_VIDEO_FORMAT_RGBA: u32 = 11;

/// `SPA_VIDEO_FORMAT_BGRA`: bytes blue, green, red, alpha.
pub const SPA_VIDEO_FORMAT_BGRA: u32 = 12;

/// `SPA_VIDEO_FORMAT_ARGB`: bytes alpha, red, green, blue.
pub const SPA_VIDEO_FORMAT_ARGB: u32 = 13;

/// `SPA_VIDEO_FORMAT_ABGR`: bytes alpha, blue, green, red.
pub const SPA_VIDEO_FORMAT_ABGR: u32 = 14;

/// The metadata that comes with the bytes of one buffer.
#[derive(Clone, Copy, Debug)]
pub struct Chunk {
    /// Where the valid bytes start, taken modulo the size of the mapped memory.
    pub offset: u32,
    /// How many bytes are valid, clamped to the size of the mapped memory.
    pub size: u32,
    /// Distance between the starts of two rows; zero for tightly packed rows.
    pub stride: i32,
    /// `SPA_CHUNK_FLAG_*` bits.
    pub flags: i32,
}

/// A component of a packed pixel.
#[derive(Clone, Copy, Debug, PartialEq, Eq, Structural)]
pub enum Channel {
    Red,
    Green,
    Blue,
    Alpha,
    Unused,
}

/// The channels of a packed 32-bit SPA format in the order of their bytes in memory, or
/// `None` for an identifier that names no such format.
pub open spec fn memory_order(spa_format: u32) -> Option<Seq<Channel>> {
    if spa_format == SPA_VIDEO_FORMAT_RGBX {
        Some(seq![Channel::Red, Channel::Green, Channel::Blue, Channel::Unused])
    } else if spa_format == SPA_VIDEO_FORMAT_BGRX {
        Some(seq![Channel::Blue, Channel::Green, Channel::Red, Channel::Unused])
    } else if spa_format == SPA_VIDEO_FORMAT_XRGB {
        Some(seq![Channel::Unused, Channel::Red, Channel::Green, Channel::Blue])
    } else if spa_format == SPA_VIDEO_FORMAT_XBGR {
        Some(seq![Channel::Unused, Channel::Blue, Channel::Green, Channel::Red])
    } else if spa_format == SPA_VIDEO_FORMAT_RGBA {
        Some(seq![Channel::Red, Channel::Green, Channel::Blue, Channel::Alpha])
    } else if spa_format == SPA_VIDEO_FORMAT_BGRA {
        Some(seq![Channel::Blue, Channel::Green, Channel::Red, Channel::Alpha])
    } else if spa_format == SPA_VIDEO_FORMAT_ARGB {
        Some(seq![Channel::Alpha, Channel::Red, Channel::Green, Channel::Blue])
    } else if spa_format == SPA_VIDEO_FORMAT_ABGR {
        Some(seq![Channel::Alpha, Channel::Blue, Channel::Green, Channel::Red])
    } else {
        None
    }
}

/// Law: the packed formats are numbered from 7 to 14, and their names spell the bytes of a pixel
/// in memory.
pub proof fn law_formats_spell_their_bytes(spa_format: u32)
    ensures
        spa_format == 7 ==> memory_order(spa_format) == Some(
            seq![Channel::Red, Channel::Green, Channel::Blue, Channel::Unused],
        ),
        spa_format == 8 ==> memory_order(spa_format) == Some(
            seq![Channel::Blue, Channel::Green, Channel::Red, Channel::Unused],
        ),
        spa_format == 9 ==> memory_order(spa_format) == Some(
            seq![Channel::Unused, Channel::Red, Channel::Green, Channel::Blue],
        ),
        spa_format == 10 ==> memory_order(spa_format) == Some(
            seq![Channel::Unused, Channel::Blue, Channel::Green, Channel::Red],
        ),
        spa_format == 11 ==> memory_order(spa_format) == Some(
            seq![Channel::Red, Channel::Green, Channel::Blue, Channel::Alpha],
        ),
        spa_format == 12 ==> memory_order(spa_format) == Some(
            seq![Channel::Blue, Channel::Green, Channel::Red, Channel::Alpha],
        ),
        spa_format == 13 ==> memory_order(spa_format) == Some(
            seq![Channel::Alpha, Channel::Red, Channel::Green, Channel::Blue],
        ),
        spa_format == 14 ==> memory_order(spa_format) == Some(
            seq![Channel::Alpha, Channel::Blue, Channel::Green, Channel::Red],
        ),
        spa_format < 7 || spa_format > 14 ==> memory_order(spa_format) is None,
{
}

/// Law: the identifiers have the numbers that the SPA headers give them.
pub proof fn law_identifiers_in_numbers()
    ensures
        SPA_PARAM_FORMAT == 4,
        SPA_DATA_MEM_PTR == 1,
        SPA_DATA_MEM_FD == 2,
        SPA_DATA_DMA_BUF == 3,
        SPA_CHUNK_FLAG_CORRUPTED == 1,
        SPA_CHUNK_FLAG_EMPTY == 2,
        SPA_VIDEO_FORMAT_UNKNOWN == 0,
        SPA_VIDEO_FORMAT_RGBX == 7,
        SPA_VIDEO_FORMAT_BGRX == 8,
        SPA_VIDEO_FORMAT_XRGB == 9,
        SPA_VIDEO_FORMAT_XBGR == 10,
        SPA_VIDEO_FORMAT_RGBA == 11,
        SPA_VIDEO_FORMAT_BGRA == 12,
        SPA_VIDEO_FORMAT_ARGB == 13,
        SPA_VIDEO_FORMAT_ABGR == 14,
{
}

} // verus!
