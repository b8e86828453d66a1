//! PNG to GIF conversion: decode a PNG, check that its pixels form an 8-bit
//! RGB frame that a GIF can hold, optionally apply the party transform, and
//! encode the frame as a GIF.

use vstd::prelude::*;
use crate::buffer::{
    blended_pixels, lemma_transformed_is_blended, transform_pixels, transformed, BlendMode,
};
use crate::color::{ColorError, RGB};

verus! {

#[verifier::external_type_specification]
#[verifier::external_body]
pub struct ExDecodingError(png::DecodingError);

#[verifier::external_type_specification]
#[verifier::external_body]
pub struct ExEncodingError(gif::EncodingError);

/// A decoded PNG frame: its size in pixels and its bytes in the decoder's
/// output layout.
pub struct DecodedImage {
    pub width: u32,
    pub height: u32,
    pub pixels: Vec<u8>,
}

/// An 8-bit RGB frame whose size fits a GIF.
pub struct RgbFrame {
    pub width: u16,
    pub height: u16,
    pub pixels: Vec<u8>,
}

impl RgbFrame {
    /// Three bytes for each of the `width * height` pixels.
    pub open spec fn wf(&self) -> bool {
        self.pixels@.len() == self.width * self.height * 3
    }
}

/// Why a conversion failed.
#[derive(Debug, Clone, Copy, PartialEq, Eq, Structural)]
pub enum ConvertError {
    /// The PNG decoder refused the input.
    Decode,
    /// The image is wider or taller than a GIF can be (65535 pixels).
    TooLarge,
    /// The decoded bytes are not three per pixel (not 8-bit RGB).
    NotRgb,
    /// The party transform refused its parameters.
    Color(ColorError),
    /// The GIF encoder failed.
    Encode,
}

/// What the PNG decoder makes of `bytes`: the width, height and bytes of the
/// first frame, or nothing where it refuses them.
pub uninterp spec fn png_frame_of(bytes: Seq<u8>) -> Option<(u32, u32, Seq<u8>)>;

/// The GIF that the encoder writes for one RGB frame.
pub uninterp spec fn gif_of(width: u16, height: u16, pixels: Seq<u8>) -> Seq<u8>;

/// Relies on png's `Decoder::new`, `Decoder::read_info`,
/// `Reader::output_buffer_size` and `Reader::next_frame`: decodes the first
/// frame of a PNG held in memory, with the default limits. The outcome
/// depends on the bytes alone.
#[verifier::external_body]
fn decode_png(bytes: &[u8]) -> (r: Result<DecodedImage, png::DecodingError>)
    ensures
        r is Ok <==> png_frame_of(bytes@) is Some,
        r is Ok ==> png_frame_of(bytes@) == Some(
            (r->Ok_0.width, r->Ok_0.height, r->Ok_0.pixels@),
        ),
{
    let mut reader = png::Decoder::new(std::io::Cursor::new(bytes)).read_info()?;
    let size = reader.output_buffer_size().ok_or(png::DecodingError::LimitsExceeded)?;
    let mut pixels = vec![0u8; size];
    let info = reader.next_frame(&mut pixels)?;
    Ok(DecodedImage { width: info.width, height: info.height, pixels })
}

/// Relies on gif's `Encoder::new`, `Frame::from_rgb`, `Encoder::write_frame`
/// and `Encoder::into_inner`: encodes one RGB frame as a GIF in memory; the
/// bytes depend on the frame alone. `Frame::from_rgb` panics unless there
/// are three bytes per pixel.
#[verifier::external_body]
fn encode_gif(frame: &RgbFrame) -> (r: Result<Vec<u8>, gif::EncodingError>)
    requires
        frame.wf(),
    ensures
        r is Ok ==> r->Ok_0@ == gif_of(frame.width, frame.height, frame.pixels@),
{
    let mut encoder = gif::Encoder::new(Vec::new(), frame.width, frame.height, &[])?;
    encoder.write_frame(&gif::Frame::from_rgb(frame.width, frame.height, &frame.pixels))?;
    encoder.into_inner()
}

/// Takes a decoded image as a GIF frame: `TooLarge` when a side exceeds
/// 65535 pixels, else `NotRgb` unless there are exactly three bytes per pixel.
pub fn rgb_frame(image: DecodedImage) -> (r: Result<RgbFrame, ConvertError>)
    ensures
        image.width > 65535 || image.height > 65535 <==> r == Err::<RgbFrame, ConvertError>(
            ConvertError::TooLarge,
        ),
        image.width <= 65535 && image.height <= 65535 && image.pixels@.len() != image.width
            * image.height * 3 <==> r == Err::<RgbFrame, ConvertError>(ConvertError::NotRgb),
        r is Ok <==> image.width <= 65535 && image.height <= 65535 && image.pixels@.len()
            == image.width * image.height * 3,
        r is Ok ==> r->Ok_0.wf() && r->Ok_0.width == image.width && r->Ok_0.height
            == image.height && r->Ok_0.pixels@ == image.pixels@,
{
    if image.width > 65535 || image.height > 65535 {
        return Err(ConvertError::TooLarge);
    }
    let width: u16 = image.width as u16;
    let height: u16 = image.height as u16;
    let w: u64 = width as u64;
    let h: u64 = height as u64;
    assert(w * h <= 65535 * 65535) by (nonlinear_arith)
        requires w <= 65535, h <= 65535;
    let needed: u64 = w * h * 3;
    if image.pixels.len() as u64 != needed {
        return Err(ConvertError::NotRgb);
    }
    Ok(RgbFrame { width, height, pixels: image.pixels })
}

/// A party transform to lay over every pixel before encoding.
#[derive(Debug, Clone, Copy, PartialEq, Eq, Structural)]
pub struct PartyBlend {
    pub color: RGB,
    pub opacity: u8,
    pub mode: BlendMode,
}

/// Applies `party`, when there is one, to every pixel of `frame`; the size
/// is kept. Fails with `Color(InvalidOpacity)` when the opacity exceeds 100.
pub fn party_frame(frame: RgbFrame, party: Option<PartyBlend>) -> (r: Result<RgbFrame, ConvertError>)
    requires
        frame.wf(),
    ensures
        party is None ==> r is Ok && r->Ok_0.pixels@ == frame.pixels@,
        party is Some ==> (party->Some_0.opacity > 100 <==> r == Err::<RgbFrame, ConvertError>(
            ConvertError::Color(ColorError::InvalidOpacity),
        )),
        party is Some && party->Some_0.opacity <= 100 ==> r is Ok && transformed(
            frame.pixels@,
            r->Ok_0.pixels@,
            party->Some_0.color,
            party->Some_0.opacity,
            party->Some_0.mode,
        ),
        r is Ok ==> r->Ok_0.wf() && r->Ok_0.width == frame.width && r->Ok_0.height
            == frame.height,
{
    match party {
        None => Ok(frame),
        Some(p) => {
            assert(frame.pixels@.len() % 3 == 0) by (nonlinear_arith)
                requires frame.pixels@.len() == frame.width * frame.height * 3;
            match transform_pixels(&frame.pixels, &p.color, p.opacity, p.mode) {
                Ok(pixels) => Ok(RgbFrame { width: frame.width, height: frame.height, pixels }),
                Err(e) => Err(ConvertError::Color(e)),
            }
        },
    }
}

/// The pixels that are encoded: those decoded, blended when there is a party.
pub open spec fn party_pixels(pixels: Seq<u8>, party: Option<PartyBlend>) -> Seq<u8> {
    match party {
        None => pixels,
        Some(p) => blended_pixels(pixels, p.color, p.opacity, p.mode),
    }
}

/// The party's opacity, where there is one, is at most 100.
pub open spec fn party_valid(party: Option<PartyBlend>) -> bool {
    party is None || party->Some_0.opacity <= 100
}

/// A decoded frame is 8-bit RGB and fits a GIF.
pub open spec fn frame_fits(f: (u32, u32, Seq<u8>)) -> bool {
    f.0 <= 65535 && f.1 <= 65535 && f.2.len() == f.0 * f.1 * 3
}

/// Converts a PNG held in memory into a single-frame GIF, with `party` laid
/// over its pixels when given. The opacity is checked before anything is
/// decoded. Then `Decode` comes exactly when the PNG decoder refuses the
/// bytes, `TooLarge` exactly when a side of the decoded frame exceeds 65535
/// pixels, and `NotRgb` exactly when the frame fits but its bytes are not
/// three per pixel. `Encode` comes only where the GIF encoder fails on such a
/// frame; otherwise the result is the GIF of the frame's pixels, blended
/// when there is a party.
pub fn png_to_gif(png_bytes: &[u8], party: Option<PartyBlend>) -> (r: Result<
    Vec<u8>,
    ConvertError,
>)
    ensures
        !party_valid(party) <==> r == Err::<Vec<u8>, ConvertError>(
            ConvertError::Color(ColorError::InvalidOpacity),
        ),
        party_valid(party) ==> (png_frame_of(png_bytes@) is None <==> r == Err::<
            Vec<u8>,
            ConvertError,
        >(ConvertError::Decode)),
        party_valid(party) && png_frame_of(png_bytes@) is Some ==> (r == Err::<
            Vec<u8>,
            ConvertError,
        >(ConvertError::TooLarge) <==> png_frame_of(png_bytes@)->Some_0.0 > 65535
            || png_frame_of(png_bytes@)->Some_0.1 > 65535),
        party_valid(party) && png_frame_of(png_bytes@) is Some ==> (r == Err::<
            Vec<u8>,
            ConvertError,
        >(ConvertError::NotRgb) <==> png_frame_of(png_bytes@)->Some_0.0 <= 65535
            && png_frame_of(png_bytes@)->Some_0.1 <= 65535 && png_frame_of(
            png_bytes@,
        )->Some_0.2.len() != png_frame_of(png_bytes@)->Some_0.0 * png_frame_of(
            png_bytes@,
        )->Some_0.1 * 3),
        r == Err::<Vec<u8>, ConvertError>(ConvertError::Encode) ==> party_valid(party)
            && png_frame_of(png_bytes@) is Some && frame_fits(png_frame_of(png_bytes@)->Some_0),
        r is Ok ==> party_valid(party) && png_frame_of(png_bytes@) is Some && frame_fits(
            png_frame_of(png_bytes@)->Some_0,
        ) && r->Ok_0@ == gif_of(
            png_frame_of(png_bytes@)->Some_0.0 as u16,
            png_frame_of(png_bytes@)->Some_0.1 as u16,
            party_pixels(png_frame_of(png_bytes@)->Some_0.2, party),
        ),
{
    if let Some(p) = party {
        if p.opacity > crate::color::MAX_OPACITY {
            return Err(ConvertError::Color(ColorError::InvalidOpacity));
        }
    }
    let image = match decode_png(png_bytes) {
        Ok(image) => image,
        Err(_) => return Err(ConvertError::Decode),
    };
    let frame = match rgb_frame(image) {
        Ok(frame) => frame,
        Err(e) => return Err(e),
    };
    let ghost decoded = frame.pixels@;
    let frame = match party_frame(frame, party) {
        Ok(frame) => frame,
        Err(e) => return Err(e),
    };
    proof {
        if let Some(p) = party {
            assert(decoded.len() % 3 == 0) by (nonlinear_arith)
                requires decoded.len() == frame.width * frame.height * 3;
            lemma_transformed_is_blended(decoded, frame.pixels@, p.color, p.opacity, p.mode);
        }
    }
    match encode_gif(&frame) {
        Ok(bytes) => Ok(bytes),
        Err(_) => Err(ConvertError::Encode),
    }
}

} // verus!
