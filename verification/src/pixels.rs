use vstd::prelude::*;
use crate::error::{GameError, GameResult};
use crate::png::{scan, spec_scan};

verus! {

#[verifier::external_type_specification]
#[verifier::external_body]
pub struct ExImageError(image::ImageError);

/// The image that `image::load_from_memory` decodes from a byte stream, after
/// `DynamicImage::to_rgba`: its width, its height and its RGBA8 bytes, or
/// `None` where the decoder reports an error.
pub uninterp spec fn decoded_rgba(bytes: Seq<u8>) -> Option<(u32, u32, Seq<u8>)>;

/// Calls `image::load_from_memory` and turns the decoded image into RGBA8
/// with `DynamicImage::to_rgba`.
///
/// Trusted: the outcome depends on the bytes alone, so it is the one that
/// `decoded_rgba` names, and the buffer that `to_rgba` allocates holds four
/// bytes for each pixel.
///
/// The decoder sizes its row buffer from the header as it stands when image
/// data begins, and it indexes out of bounds where a later chunk changes
/// the header, the palette or the transparency, or where the bit depth does
/// not belong to the colour type. The precondition leaves those streams
/// out, and with them every image that is empty or larger than a texture.
/// That corrupt compressed data is reported and not aborted on rests on the
/// decoder alone; an image of the largest size takes gigabytes to decode.
#[verifier::external_body]
fn load_rgba_from_memory(bytes: &[u8]) -> (r: Result<(u32, u32, Vec<u8>), image::ImageError>)
    requires
        spec_scan(bytes@) is Ok,
    ensures
        match r {
            Ok((width, height, data)) => {
                &&& decoded_rgba(bytes@) == Some((width, height, data@))
                &&& data@.len() == 4 * width * height
            },
            Err(_) => decoded_rgba(bytes@) is None,
        },
{
    let decoded = image::load_from_memory(bytes)?;
    let rgba = decoded.to_rgba();
    Ok((rgba.width(), rgba.height(), rgba.into_raw()))
}

/// A decoded pixel buffer: RGBA8, row by row, ready to become a texture.
#[derive(Clone, Debug)]
pub struct Pixels {
    width: u16,
    height: u16,
    data: Vec<u8>,
}

/// A pixel buffer as a mathematical value.
pub struct PixelsView {
    pub width: u16,
    pub height: u16,
    pub data: Seq<u8>,
}

impl PixelsView {
    /// The buffer holds four bytes for each pixel that its size announces.
    pub open spec fn well_formed(self) -> bool {
        self.data.len() == 4 * self.width * self.height
    }
}

/// What a decoder's outcome becomes. No outcome is a decoding failure; a
/// buffer whose length does not match its size is one too; a side that a
/// texture cannot have is refused; and any other buffer is taken as it is.
pub open spec fn spec_from_decoded(decoded: Option<(u32, u32, Seq<u8>)>) -> GameResult<PixelsView> {
    match decoded {
        None => Err(GameError::ImageDecodeError),
        Some((width, height, data)) => if width > u16::MAX || height > u16::MAX {
            Err(GameError::ImageTooLarge)
        } else if data.len() != 4 * width * height {
            Err(GameError::ImageDecodeError)
        } else {
            Ok(PixelsView { width: width as u16, height: height as u16, data })
        },
    }
}

/// What decoding a byte stream gives. A stream that the scan refuses is not
/// decoded at all; one that the decoder gives up on is malformed; a decoded
/// image with a side that a texture cannot have is refused; and any other
/// image is taken as it is.
pub open spec fn spec_decode(bytes: Seq<u8>) -> GameResult<PixelsView> {
    match spec_scan(bytes) {
        Err(e) => Err(e),
        Ok(_) => match decoded_rgba(bytes) {
            None => Err(GameError::ImageDecodeError),
            Some((width, height, data)) => if width > u16::MAX || height > u16::MAX {
                Err(GameError::ImageTooLarge)
            } else {
                Ok(PixelsView { width: width as u16, height: height as u16, data })
            },
        },
    }
}

/// The result carries the pixels that the model gives, or its error.
pub open spec fn pixels_result_is(r: GameResult<Pixels>, expected: GameResult<PixelsView>) -> bool {
    match r {
        Ok(p) => expected == Ok::<PixelsView, GameError>(p@),
        Err(e) => expected == Err::<PixelsView, GameError>(e),
    }
}

impl View for Pixels {
    type V = PixelsView;

    closed spec fn view(&self) -> PixelsView {
        PixelsView { width: self.width, height: self.height, data: self.data@ }
    }
}

impl Pixels {
    /// Accepts the width, height and RGBA8 bytes that a decoder produced.
    pub fn from_decoded(width: u32, height: u32, data: Vec<u8>) -> (r: GameResult<Pixels>)
        ensures
            pixels_result_is(r, spec_from_decoded(Some((width, height, data@)))),
    {
        if width > 0xffff || height > 0xffff {
            return Err(GameError::ImageTooLarge);
        }
        assert(width * height <= 0xffff * 0xffff) by (nonlinear_arith)
            requires
                width <= 0xffff,
                height <= 0xffff,
        ;
        assert(4 * width * height == 4 * (width * height)) by (nonlinear_arith);
        let expected: u64 = 4 * (width as u64 * height as u64);
        if data.len() as u64 != expected {
            return Err(GameError::ImageDecodeError);
        }
        Ok(Pixels { width: width as u16, height: height as u16, data })
    }

    /// Decodes a PNG file's bytes into RGBA8 pixels.
    pub fn decode(bytes: &[u8]) -> (r: GameResult<Pixels>)
        ensures
            pixels_result_is(r, spec_decode(bytes@)),
            r matches Ok(p) ==> p@.well_formed(),
    {
        match scan(bytes) {
            Err(e) => {
                return Err(e);
            },
            Ok(_) => {},
        }
        match load_rgba_from_memory(bytes) {
            Ok((width, height, data)) => Self::from_decoded(width, height, data),
            Err(_) => Err(GameError::ImageDecodeError),
        }
    }

    /// One opaque white pixel: the texture of whatever is drawn without one.
    pub fn white() -> (p: Pixels)
        ensures
            p@ == (PixelsView { width: 1, height: 1, data: seq![255u8, 255u8, 255u8, 255u8] }),
            p@.well_formed(),
    {
        let data = vec![255u8, 255u8, 255u8, 255u8];
        assert(data@ =~= seq![255u8, 255u8, 255u8, 255u8]);
        Pixels { width: 1, height: 1, data }
    }

    pub fn width(&self) -> (w: u16)
        ensures
            w == self@.width,
    {
        self.width
    }

    pub fn height(&self) -> (h: u16)
        ensures
            h == self@.height,
    {
        self.height
    }

    pub fn bytes(&self) -> (b: &[u8])
        ensures
            b@ == self@.data,
    {
        self.data.as_slice()
    }
}

/// Whatever is decoded successfully holds four bytes for each of its pixels.
pub proof fn lemma_decoded_pixels_well_formed(decoded: Option<(u32, u32, Seq<u8>)>)
    ensures
        spec_from_decoded(decoded) matches Ok(p) ==> p.well_formed(),
{
}

} // verus!
