//! The image codec: decoding, resampling and encoding are done by the
//! `image` crate. Nothing in this file is proved; each function is one call
//! into that crate, with what this library relies on stated as its contract.

use vstd::prelude::*;

verus! {

/// `image::DynamicImage`, carried through verified code as an opaque value.
#[verifier::external_type_specification]
#[verifier::external_body]
pub struct ExDynamicImage(image::DynamicImage);

/// A decoded picture together with its size in pixels and the media type of
/// the format it was decoded from.
pub(crate) struct Picture {
    pub(crate) width: u32,
    pub(crate) height: u32,
    pub(crate) media_type: String,
    pub(crate) pixels: image::DynamicImage,
}

/// What decoding tells of a byte string: the size of the picture in pixels
/// and the media type of its format.
pub ghost struct Decoding {
    pub width: u32,
    pub height: u32,
    pub media_type: Seq<char>,
}

/// What `image::guess_format` and `image::load_from_memory_with_format`
/// make of a byte string, or nothing where the signature at its start is of
/// no format of the crate or the bytes do not decode in that format.
pub uninterp spec fn decoded(bytes: Seq<u8>) -> Option<Decoding>;

/// `image::guess_format`, then `image::load_from_memory_with_format` in the
/// format that was guessed, with the width, the height and
/// `ImageFormat::to_mime_type` of the outcome. Both calls go by the
/// signatures and decoders that are built into the crate, so the claim is
/// that whether the bytes decode, and as what, depends on the bytes alone.
#[verifier::external_body]
pub(crate) fn decode(bytes: &[u8]) -> (out: Option<Picture>)
    ensures
        match out {
            Some(picture) => decoded(bytes@) == Some(
                (Decoding {
                    width: picture.width,
                    height: picture.height,
                    media_type: picture.media_type@,
                }),
            ),
            None => decoded(bytes@) is None,
        },
{
    let format = match image::guess_format(bytes) {
        Ok(format) => format,
        Err(_) => return None,
    };
    let media_type = format.to_mime_type().to_owned();
    match image::load_from_memory_with_format(bytes, format) {
        Ok(pixels) => {
            Some(Picture { width: pixels.width(), height: pixels.height(), media_type, pixels })
        },
        Err(_) => None,
    }
}

/// `DynamicImage::resize` with the Lanczos filter of three lobes: the
/// picture scaled to fit within `width` by `height`. The filter computes in
/// floating point, so nothing is claimed of the pixels that come out. The
/// bounds keep the call to sizes that the picture already has in memory.
#[verifier::external_body]
pub(crate) fn resample(picture: &Picture, width: u32, height: u32) -> (out: image::DynamicImage)
    requires
        0 < width <= picture.width,
        0 < height <= picture.height,
{
    picture.pixels.resize(width, height, image::imageops::FilterType::Lanczos3)
}

/// `DynamicImage::write_to` in the JPEG format, into memory: the encoded
/// bytes, or nothing where the encoder refuses the picture.
#[verifier::external_body]
pub(crate) fn encode_jpeg(pixels: &image::DynamicImage) -> (out: Option<Vec<u8>>) {
    let mut buffer = std::io::Cursor::new(Vec::new());
    match pixels.write_to(&mut buffer, image::ImageFormat::Jpeg) {
        Ok(()) => Some(buffer.into_inner()),
        Err(_) => None,
    }
}

} // verus!
