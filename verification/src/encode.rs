//! Handing a finished frame to the PNG encoder.
use crate::frame::{frame_len, Frame};
use png::HasParameters;
use vstd::prelude::*;

verus! {

/// Why a frame could not be encoded.
#[derive(Clone, Copy, Debug, PartialEq, Eq, Structural)]
pub enum EncodeError {
    /// The frame has no pixels, and a PNG image has at least one.
    Empty,
    /// One row has more bits than a `usize` of this machine can count.
    TooWide,
    /// The encoder reported an error.
    Encoder,
}

#[verifier::external_type_specification]
#[verifier::external_body]
pub struct ExEncodingError(png::EncodingError);

/// What the `png` crate makes of an RGBA image of eight bits per channel
/// with its default compression and filter: the stream it writes
/// (signature, header, image data and end chunk), or nothing where it
/// reports an error.
pub uninterp spec fn png_stream(width: u32, height: u32, data: Seq<u8>) -> Option<Seq<u8>>;

/// Bits in one row of an RGBA image of eight bits per channel.
pub open spec fn row_bits(width: int) -> int {
    32 * width
}

/// Calls `png::Encoder::new` on an in-memory sink, sets `ColorType::RGBA`
/// and `BitDepth::Eight`, then `write_header` and
/// `Writer::write_image_data`. Trusted: whether the encoder reports an
/// error, and the stream that the sink holds if it does not, depend on the
/// size and the pixel bytes alone, and `png_stream` names that outcome.
/// The sink is memory, so no error comes from outside; on which images the
/// compressor inside the encoder gives up, if on any, is not claimed. The
/// preconditions keep the encoder's row arithmetic in range and its row
/// length above zero, and rule out its one check of the data's length.
#[verifier::external_body]
fn write_png(width: u32, height: u32, data: &Vec<u8>) -> (raw: Result<Vec<u8>, png::EncodingError>)
    requires
        0 < width,
        row_bits(width as int) <= usize::MAX,
        data@.len() == frame_len(width as int, height as int),
    ensures
        raw is Ok <==> png_stream(width, height, data@) is Some,
        raw matches Ok(stream) ==> png_stream(width, height, data@) == Some(stream@),
{
    let mut stream: Vec<u8> = Vec::new();
    {
        let mut encoder = png::Encoder::new(&mut stream, width, height);
        encoder.set(png::ColorType::RGBA).set(png::BitDepth::Eight);
        let mut writer = encoder.write_header()?;
        writer.write_image_data(data)?;
    }
    Ok(stream)
}

/// What becomes of the encoder's answer: its stream, or the one error that
/// stands for all of its own.
pub open spec fn spec_finish_encoding(raw: Result<Vec<u8>, png::EncodingError>) -> Result<
    Vec<u8>,
    EncodeError,
> {
    match raw {
        Ok(stream) => Ok(stream),
        Err(_) => Err(EncodeError::Encoder),
    }
}

/// Passes the encoder's stream on, or reports that it failed.
#[verifier::when_used_as_spec(spec_finish_encoding)]
pub fn finish_encoding(raw: Result<Vec<u8>, png::EncodingError>) -> (r: Result<Vec<u8>, EncodeError>)
    ensures
        r == spec_finish_encoding(raw),
{
    match raw {
        Ok(stream) => Ok(stream),
        Err(_) => Err(EncodeError::Encoder),
    }
}

/// Encodes `frame` as a PNG image, RGBA with eight bits per channel.
///
/// An empty frame is refused, and so is one too wide for the encoder's
/// arithmetic on this machine. Every other frame is handed to the encoder,
/// and the result is the encoder's outcome for this size and these bytes:
/// its stream, or `EncodeError::Encoder` where it has none.
pub fn encode_png(frame: &Frame) -> (r: Result<Vec<u8>, EncodeError>)
    ensures
        frame.spec_width() == 0 || frame.spec_height() == 0 ==> r == Err::<Vec<u8>, EncodeError>(
            EncodeError::Empty,
        ),
        frame.spec_width() > 0 && frame.spec_height() > 0 && row_bits(frame.spec_width() as int)
            > usize::MAX ==> r == Err::<Vec<u8>, EncodeError>(EncodeError::TooWide),
        frame.spec_width() > 0 && frame.spec_height() > 0 && row_bits(frame.spec_width() as int)
            <= usize::MAX ==> match png_stream(frame.spec_width(), frame.spec_height(), frame@) {
            Some(stream) => r matches Ok(encoded) && encoded@ == stream,
            None => r == Err::<Vec<u8>, EncodeError>(EncodeError::Encoder),
        },
{
    proof {
        use_type_invariant(frame);
    }
    let width = frame.width();
    let height = frame.height();
    if width == 0 || height == 0 {
        return Err(EncodeError::Empty);
    }
    if width as u64 * 32 > usize::MAX as u64 {
        return Err(EncodeError::TooWide);
    }
    finish_encoding(write_png(width, height, frame.as_bytes()))
}

} // verus!
