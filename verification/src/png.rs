use vstd::prelude::*;
use crate::error::{GameError, GameResult};

verus! {

/// Where the first chunk after the header begins: behind the signature of
/// eight bytes and the header chunk of twenty-five.
pub const HEADER_END: usize = 33;

/// The longest side that a texture can have.
pub const MAX_SIDE: u32 = 65535;

/// The type of the header chunk, `IHDR`.
pub const IHDR: u32 = 0x4948_4452;

/// The type of the palette chunk, `PLTE`.
pub const PLTE: u32 = 0x504c_5445;

/// The type of an image data chunk, `IDAT`.
pub const IDAT: u32 = 0x4944_4154;

/// The type of the closing chunk, `IEND`.
pub const IEND: u32 = 0x4945_4e44;

/// The type of the transparency chunk, `tRNS`.
pub const TRNS: u32 = 0x7452_4e53;

/// The stream begins with the eight bytes of the PNG signature.
pub open spec fn has_signature(bytes: Seq<u8>) -> bool {
    &&& bytes.len() >= 8
    &&& bytes[0] == 137
    &&& bytes[1] == 80
    &&& bytes[2] == 78
    &&& bytes[3] == 71
    &&& bytes[4] == 13
    &&& bytes[5] == 10
    &&& bytes[6] == 26
    &&& bytes[7] == 10
}

/// The number that four bytes hold, most significant byte first.
pub open spec fn spec_be32(bytes: Seq<u8>, at: int) -> int
    recommends
        0 <= at,
        at + 4 <= bytes.len(),
{
    bytes[at] * 0x100_0000 + bytes[at + 1] * 0x1_0000 + bytes[at + 2] * 0x100 + bytes[at + 3]
}

/// The bit depths that the format allows for a colour type: 1 to 16 for
/// greyscale, 1 to 8 for a palette, 8 or 16 for the others.
pub open spec fn spec_valid_depth(color_type: u8, bit_depth: u8) -> bool {
    if color_type == 0 {
        bit_depth == 1 || bit_depth == 2 || bit_depth == 4 || bit_depth == 8 || bit_depth == 16
    } else if color_type == 3 {
        bit_depth == 1 || bit_depth == 2 || bit_depth == 4 || bit_depth == 8
    } else if color_type == 2 || color_type == 4 || color_type == 6 {
        bit_depth == 8 || bit_depth == 16
    } else {
        false
    }
}

/// The stream begins with the signature and a header chunk of thirteen
/// bytes.
pub open spec fn has_header(bytes: Seq<u8>) -> bool {
    &&& bytes.len() >= HEADER_END
    &&& has_signature(bytes)
    &&& spec_be32(bytes, 8) == 13
    &&& spec_be32(bytes, 12) == IHDR
}

/// The width that the header announces.
pub open spec fn header_width(bytes: Seq<u8>) -> int {
    spec_be32(bytes, 16)
}

/// The height that the header announces.
pub open spec fn header_height(bytes: Seq<u8>) -> int {
    spec_be32(bytes, 20)
}

/// The chunks from `at` on are whole, one behind the other, up to a closing
/// chunk; none is a second header, and neither palette nor transparency
/// comes once image data has begun (`seen_data`). What follows the closing
/// chunk is not looked at.
pub open spec fn chunks_ok(bytes: Seq<u8>, at: int, seen_data: bool) -> bool
    decreases bytes.len() - at,
{
    if at < 0 || at + 12 > bytes.len() {
        false
    } else {
        let length = spec_be32(bytes, at);
        let kind = spec_be32(bytes, at + 4);
        let next = at + 12 + length;
        if length < 0 || next > bytes.len() {
            false
        } else if kind == IEND {
            true
        } else if kind == IHDR {
            false
        } else if seen_data && (kind == PLTE || kind == TRNS) {
            false
        } else {
            chunks_ok(bytes, next, seen_data || kind == IDAT)
        }
    }
}

/// What scanning a stream gives, before any pixel is decoded. A stream that
/// is not framed as a PNG, announces an empty image or a bit depth that its
/// colour type does not have, or orders its chunks wrongly is malformed; a
/// well-formed header that announces a side longer than a texture's is too
/// large.
pub open spec fn spec_scan(bytes: Seq<u8>) -> GameResult<()> {
    if !has_header(bytes) {
        Err(GameError::ImageDecodeError)
    } else if header_width(bytes) == 0 || header_height(bytes) == 0 {
        Err(GameError::ImageDecodeError)
    } else if !spec_valid_depth(bytes[25], bytes[24]) {
        Err(GameError::ImageDecodeError)
    } else if header_width(bytes) > MAX_SIDE || header_height(bytes) > MAX_SIDE {
        Err(GameError::ImageTooLarge)
    } else if !chunks_ok(bytes, HEADER_END as int, false) {
        Err(GameError::ImageDecodeError)
    } else {
        Ok(())
    }
}

fn be32(bytes: &[u8], at: usize) -> (v: u32)
    requires
        at + 4 <= bytes@.len(),
    ensures
        v == spec_be32(bytes@, at as int),
{
    let b0: u32 = bytes[at] as u32;
    let b1: u32 = bytes[at + 1] as u32;
    let b2: u32 = bytes[at + 2] as u32;
    let b3: u32 = bytes[at + 3] as u32;
    b0 * 0x100_0000 + b1 * 0x1_0000 + b2 * 0x100 + b3
}

fn signature_matches(bytes: &[u8]) -> (ok: bool)
    ensures
        ok == has_signature(bytes@),
{
    bytes.len() >= 8 && bytes[0] == 137 && bytes[1] == 80 && bytes[2] == 78 && bytes[3] == 71
        && bytes[4] == 13 && bytes[5] == 10 && bytes[6] == 26 && bytes[7] == 10
}

fn valid_depth(color_type: u8, bit_depth: u8) -> (ok: bool)
    ensures
        ok == spec_valid_depth(color_type, bit_depth),
{
    if color_type == 0 {
        bit_depth == 1 || bit_depth == 2 || bit_depth == 4 || bit_depth == 8 || bit_depth == 16
    } else if color_type == 3 {
        bit_depth == 1 || bit_depth == 2 || bit_depth == 4 || bit_depth == 8
    } else if color_type == 2 || color_type == 4 || color_type == 6 {
        bit_depth == 8 || bit_depth == 16
    } else {
        false
    }
}

/// Walks the chunks behind the header.
fn scan_chunks(bytes: &[u8]) -> (ok: bool)
    requires
        bytes@.len() >= HEADER_END,
    ensures
        ok == chunks_ok(bytes@, HEADER_END as int, false),
{
    let mut at: usize = HEADER_END;
    let mut seen_data = false;
    loop
        invariant
            HEADER_END <= at <= bytes@.len(),
            chunks_ok(bytes@, HEADER_END as int, false) == chunks_ok(bytes@, at as int, seen_data),
        decreases bytes@.len() - at,
    {
        if bytes.len() - at < 12 {
            return false;
        }
        let length = be32(bytes, at) as usize;
        let kind = be32(bytes, at + 4);
        if length > bytes.len() - at - 12 {
            return false;
        }
        if kind == IEND {
            return true;
        }
        if kind == IHDR || (seen_data && (kind == PLTE || kind == TRNS)) {
            return false;
        }
        if kind == IDAT {
            seen_data = true;
        }
        at = at + 12 + length;
    }
}

/// Scans an encoded stream without decoding it: is it framed as a PNG whose
/// header and chunk order a decoder can rely on, and does the image fit a
/// texture?
pub fn scan(bytes: &[u8]) -> (r: GameResult<()>)
    ensures
        r == spec_scan(bytes@),
{
    if bytes.len() < HEADER_END || !signature_matches(bytes) {
        return Err(GameError::ImageDecodeError);
    }
    if be32(bytes, 8) != 13 || be32(bytes, 12) != IHDR {
        return Err(GameError::ImageDecodeError);
    }
    let width = be32(bytes, 16);
    let height = be32(bytes, 20);
    if width == 0 || height == 0 {
        return Err(GameError::ImageDecodeError);
    }
    if !valid_depth(bytes[25], bytes[24]) {
        return Err(GameError::ImageDecodeError);
    }
    if width > MAX_SIDE || height > MAX_SIDE {
        return Err(GameError::ImageTooLarge);
    }
    if !scan_chunks(bytes) {
        return Err(GameError::ImageDecodeError);
    }
    Ok(())
}

} // verus!
