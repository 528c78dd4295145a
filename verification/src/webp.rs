//! Raster payloads: the calls into the WebP codec, and reading one payload
//! into its pixel buffer.
use vstd::prelude::*;
use crate::error::{decoded, DecodeError, DecodeFailure, DecodeResult};
use crate::text::{decimal, with_number};

verus! {

#[verifier::external_type_specification]
#[verifier::external_body]
#[verifier::reject_recursive_types(T)]
pub struct ExCursor<T>(std::io::Cursor<T>);

#[verifier::external_type_specification]
#[verifier::external_body]
#[verifier::reject_recursive_types(R)]
pub struct ExWebPDecoder<R>(image_webp::WebPDecoder<R>);

/// The payload bytes that a decoder reads from.
pub uninterp spec fn decoder_input(decoder: image_webp::WebPDecoder<std::io::Cursor<Vec<u8>>>) -> Seq<u8>;

/// The error with which the codec refuses the container and headers of a
/// payload, or nothing where it accepts them.
pub uninterp spec fn webp_refusal(data: Seq<u8>) -> Option<image_webp::DecodingError>;

/// Whether the headers of a payload that the codec accepts declare an
/// animation.
pub uninterp spec fn webp_animated(data: Seq<u8>) -> bool;

/// The byte size of a payload's decoded image, where it fits a `usize`.
pub uninterp spec fn webp_size(data: Seq<u8>) -> Option<usize>;

/// The decoded image of a payload, or the error with which the codec fails
/// on it.
pub uninterp spec fn webp_image(data: Seq<u8>) -> Result<Seq<u8>, image_webp::DecodingError>;

/// The bound on the byte size of a decoded image: only smaller images are
/// handed to the codec. Below it, four bytes for each pixel of the image
/// still fit in 32 bits, which is what the codec's own arithmetic assumes.
pub const MAX_IMAGE_BYTES: usize = 3221225472;

/// `image_webp::WebPDecoder::new` on an in-memory copy of `data`. The
/// contract names the error of a refusal `webp_refusal` and records which
/// bytes the decoder reads from; it promises nothing about which payloads are
/// accepted.
#[verifier::external_body]
fn open_decoder(data: &Vec<u8>) -> (r: Result<
    image_webp::WebPDecoder<std::io::Cursor<Vec<u8>>>,
    image_webp::DecodingError,
>)
    ensures
        match r {
            Ok(decoder) => webp_refusal(data@) is None && decoder_input(decoder) == data@,
            Err(e) => webp_refusal(data@) == Some(e),
        },
{
    image_webp::WebPDecoder::new(std::io::Cursor::new(data.clone()))
}

/// `image_webp::WebPDecoder::is_animated`. The contract names the result
/// `webp_animated` of the decoder's input.
#[verifier::external_body]
fn is_animation(decoder: &image_webp::WebPDecoder<std::io::Cursor<Vec<u8>>>) -> (r: bool)
    ensures
        r == webp_animated(decoder_input(*decoder)),
{
    decoder.is_animated()
}

/// `image_webp::WebPDecoder::output_buffer_size`. The contract names the
/// result `webp_size` of the decoder's input.
#[verifier::external_body]
fn output_size(decoder: &image_webp::WebPDecoder<std::io::Cursor<Vec<u8>>>) -> (r: Option<usize>)
    ensures
        r == webp_size(decoder_input(*decoder)),
{
    decoder.output_buffer_size()
}

/// `image_webp::WebPDecoder::read_image` into a zeroed buffer of the size that
/// the decoder asked for, for a still image below [`MAX_IMAGE_BYTES`]. For an
/// animation the codec composes frames whose sizes it does not check against
/// each other, and for a larger image its 32-bit size arithmetic can
/// overflow: in both cases the call is not made. The contract claims that the buffer keeps its length, and names the
/// outcome `webp_image` of the decoder's input: the content of the buffer
/// after a success, or the error. The decoder is used up, so each decoder
/// reads once.
#[verifier::external_body]
fn read_pixels(decoder: image_webp::WebPDecoder<std::io::Cursor<Vec<u8>>>, buf: &mut Vec<u8>) -> (r:
    Result<(), image_webp::DecodingError>)
    requires
        !webp_animated(decoder_input(decoder)),
        webp_size(decoder_input(decoder)) == Some(old(buf).len()),
        old(buf).len() < MAX_IMAGE_BYTES,
        forall|i: int| 0 <= i < old(buf).len() ==> old(buf)@[i] == 0,
    ensures
        final(buf).len() == old(buf).len(),
        match r {
            Ok(_) => webp_image(decoder_input(decoder)) == Ok::<
                Seq<u8>,
                image_webp::DecodingError,
            >(final(buf)@),
            Err(e) => webp_image(decoder_input(decoder)) == Err::<
                Seq<u8>,
                image_webp::DecodingError,
            >(e),
        },
{
    let mut decoder = decoder;
    decoder.read_image(buf.as_mut_slice())
}

/// The text that reports an image whose size cannot be determined.
pub open spec fn unsized_text() -> Seq<char> {
    "cannot determine output size"@
}

/// The text that reports a payload as an animation.
pub open spec fn animated_text() -> Seq<char> {
    "payload is an animation, not a still image"@
}

/// The text that reports an image of `size` bytes as too large.
pub open spec fn oversized_text(size: nat) -> Seq<char> {
    "image is too large to decode: "@ + decimal(size)
}

/// What reading the payload `data` comes to: its pixel bytes, or the failure
/// owed, where a missing size is reported with the text `unsized_text`. The
/// codec's own error is handed on as it is. A payload is a still image: an
/// animation is refused, whatever its frames hold.
pub open spec fn pixels_of(data: Seq<u8>, unsized_text: Seq<char>) -> Result<
    Seq<u8>,
    DecodeFailure,
> {
    match webp_refusal(data) {
        Some(e) => Err(DecodeFailure::DecodeImage(e)),
        None => if webp_animated(data) {
            Err(DecodeFailure::InvalidData(animated_text()))
        } else {
            match webp_size(data) {
                None => Err(DecodeFailure::InvalidSize(unsized_text)),
                Some(size) => if size >= MAX_IMAGE_BYTES {
                    Err(DecodeFailure::InvalidSize(oversized_text(size as nat)))
                } else {
                    match webp_image(data) {
                        Ok(pixels) => Ok(pixels),
                        Err(e) => Err(DecodeFailure::DecodeImage(e)),
                    }
                },
            }
        },
    }
}

/// Decodes one WebP payload into its pixel bytes.
///
/// A payload that the codec refuses gives `DecodeImage` with the codec's
/// error. A payload is a still image: an animation gives `InvalidData` and is
/// not decoded. An image whose size cannot be determined gives `InvalidSize`
/// with the text `unsized_text`; an image of [`MAX_IMAGE_BYTES`] or more
/// gives `InvalidSize` too, and is not decoded.
pub fn read_webp(data: &Vec<u8>, unsized_text: &str) -> (r: DecodeResult<Vec<u8>>)
    ensures
        decoded(r) == pixels_of(data@, unsized_text@),
{
    let decoder = match open_decoder(data) {
        Ok(d) => d,
        Err(e) => {
            return Err(DecodeError::DecodeImage(e));
        },
    };
    if is_animation(&decoder) {
        return Err(
            DecodeError::InvalidData("payload is an animation, not a still image".to_owned()),
        );
    }
    let size = match output_size(&decoder) {
        Some(n) => n,
        None => {
            return Err(DecodeError::InvalidSize(unsized_text.to_owned()));
        },
    };
    if size >= MAX_IMAGE_BYTES {
        return Err(DecodeError::InvalidSize(with_number("image is too large to decode: ", size)));
    }
    let mut pixels: Vec<u8> = vec![0u8; size];
    match read_pixels(decoder, &mut pixels) {
        Ok(()) => Ok(pixels),
        Err(e) => Err(DecodeError::DecodeImage(e)),
    }
}

} // verus!
