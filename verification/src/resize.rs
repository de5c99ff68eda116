//! Size reduction: a picture is shrunk step by step until its JPEG encoding
//! fits a byte budget.

use vstd::prelude::*;
use vstd::slice::slice_to_vec;
use crate::codec::{decode, decoded, encode_jpeg, resample};
use crate::shrink::{attempt, lemma_shrunk_is_smaller, next_attempt, rounds};

verus! {

/// The media type of an image that was shrunk: every attempt is encoded as
/// JPEG.
pub const JPEG_MEDIA_TYPE: &'static str = "image/jpeg";

/// Why no image within the budget could be produced.
#[derive(Debug, Clone, Copy, PartialEq, Eq)]
pub enum ResizeError {
    /// The input is not an image that can be decoded.
    Decode,
    /// The next attempt would have a side at or below the floor.
    ImageTooSmallToShrink,
    /// The encoder refused a shrunk picture.
    Encode,
}

/// An attempt whose encoding was over the budget.
#[derive(Debug, Clone, Copy, PartialEq, Eq)]
pub struct Attempt {
    pub width: u32,
    pub height: u32,
    pub encoded_len: usize,
}

/// An image within the budget, with the media type of its format.
#[derive(Debug, PartialEq)]
pub struct Reduced {
    pub bytes: Vec<u8>,
    pub media_type: String,
}

/// The mathematical content of a [`Reduced`].
pub ghost struct ReducedView {
    pub bytes: Seq<u8>,
    pub media_type: Seq<char>,
}

impl View for Reduced {
    type V = ReducedView;

    open spec fn view(&self) -> ReducedView {
        ReducedView { bytes: self.bytes@, media_type: self.media_type@ }
    }
}

/// What `resize_image` hands back: the image or the reason for which there
/// is none, and the attempts that were rejected on the way, in their order.
#[derive(Debug, PartialEq)]
pub struct Reduction {
    pub image: Result<Reduced, ResizeError>,
    pub rejected: Vec<Attempt>,
}

/// The mathematical content of a [`Reduction`].
pub ghost struct ReductionView {
    pub image: Result<ReducedView, ResizeError>,
    pub rejected: Seq<Attempt>,
}

impl View for Reduction {
    type V = ReductionView;

    open spec fn view(&self) -> ReductionView {
        ReductionView {
            image: match self.image {
                Ok(reduced) => Ok(reduced@),
                Err(reason) => Err(reason),
            },
            rejected: self.rejected@,
        }
    }
}

/// What becomes of one attempt, once the encoder has answered.
#[derive(Debug, PartialEq)]
pub enum Rendering {
    /// The encoding is within the budget: these bytes are the result.
    Fits(Vec<u8>),
    /// The encoding is over the budget: the attempt goes into the log and
    /// the next one is made from its size.
    Over(Attempt),
    /// The encoder refused the picture: the reduction fails.
    Refused,
}

/// Judges what the encoder gave for an attempt of `width` by `height`:
/// bytes of at most `max_size_bytes` are accepted as they are, more bytes
/// are recorded with their length, and a refusal is passed on.
pub fn judge(encoded: Option<Vec<u8>>, width: u32, height: u32, max_size_bytes: usize) -> (out:
    Rendering)
    ensures
        match encoded {
            None => out == Rendering::Refused,
            Some(bytes) => if bytes.len() <= max_size_bytes {
                out == Rendering::Fits(bytes)
            } else {
                out == Rendering::Over((Attempt { width, height, encoded_len: bytes.len() }))
            },
        },
{
    match encoded {
        None => Rendering::Refused,
        Some(bytes) => if bytes.len() <= max_size_bytes {
            Rendering::Fits(bytes)
        } else {
            Rendering::Over(Attempt { width, height, encoded_len: bytes.len() })
        },
    }
}

/// The rejected attempts are the first attempts of the schedule for a picture
/// of `width` by `height`, one entry each, and each was over the budget.
pub open spec fn rejected_in_order(log: Seq<Attempt>, width: nat, height: nat, budget: nat) -> bool {
    forall|i: int|
        0 <= i < log.len() ==> {
            &&& (#[trigger] log[i]).width == attempt(width, (i + 1) as nat)
            &&& log[i].height == attempt(height, (i + 1) as nat)
            &&& log[i].encoded_len > budget
        }
}

/// What holds of a reduction of `data` to `budget` bytes, whatever the
/// encoder gave.
///
/// - Input that does not decode is refused.
/// - Input that decodes and fits the budget comes back unchanged, under the
///   media type of its own format, with no attempt made.
/// - Otherwise attempts are made in the order of the schedule. An image
///   that comes back is a JPEG, fits the budget and stems from an attempt
///   above the floor; `ImageTooSmallToShrink` comes back exactly when every
///   attempt that the schedule allows was made and rejected; the encoder can
///   refuse only an attempt that the schedule allows.
///
/// What is done with the encoder's answer to each attempt is stated by
/// `judge`.
pub open spec fn is_reduction(data: Seq<u8>, budget: nat, out: ReductionView) -> bool {
    match decoded(data) {
        None => out.image == Err::<ReducedView, ResizeError>(ResizeError::Decode)
            && out.rejected.len() == 0,
        Some(picture) => if data.len() <= budget {
            out.image == Ok::<ReducedView, ResizeError>(
                ReducedView { bytes: data, media_type: picture.media_type },
            ) && out.rejected.len() == 0
        } else {
            &&& rejected_in_order(out.rejected, picture.width as nat, picture.height as nat, budget)
            &&& match out.image {
                Ok(reduced) => {
                    &&& reduced.bytes.len() <= budget
                    &&& reduced.media_type == JPEG_MEDIA_TYPE@
                    &&& out.rejected.len() < rounds(picture.width as nat, picture.height as nat)
                },
                Err(ResizeError::ImageTooSmallToShrink) => out.rejected.len() == rounds(
                    picture.width as nat,
                    picture.height as nat,
                ),
                Err(ResizeError::Encode) => out.rejected.len() < rounds(
                    picture.width as nat,
                    picture.height as nat,
                ),
                Err(ResizeError::Decode) => false,
            }
        },
    }
}

/// Reduces an image to at most `max_size_bytes` bytes.
///
/// The input is decoded once. If it already fits the budget it is returned
/// as it is. Otherwise both sides are scaled to nine tenths, time and again,
/// each time from the size of the attempt before; each size is rendered
/// from the decoded input and encoded as JPEG, and `judge` decides on each
/// encoding: the first that fits is returned. The reduction gives up before
/// an attempt with a side of `FLOOR` pixels or fewer.
pub fn resize_image(image_data: &[u8], max_size_bytes: usize) -> (out: Reduction)
    ensures
        is_reduction(image_data@, max_size_bytes as nat, out@),
        out.image matches Ok(reduced) ==> reduced.bytes@.len() <= max_size_bytes,
        out.image matches Ok(reduced) ==> image_data@.len() <= max_size_bytes ==> decoded(
            reduced.bytes@,
        ) is Some,
{
    let mut rejected: Vec<Attempt> = Vec::new();
    let picture = match decode(image_data) {
        Some(picture) => picture,
        None => {
            return Reduction { image: Err(ResizeError::Decode), rejected };
        },
    };
    if image_data.len() <= max_size_bytes {
        let unchanged = Reduced {
            bytes: slice_to_vec(image_data),
            media_type: picture.media_type,
        };
        return Reduction { image: Ok(unchanged), rejected };
    }
    let mut width = picture.width;
    let mut height = picture.height;
    loop
        invariant
            decoded(image_data@) matches Some(found) && found.width == picture.width
                && found.height == picture.height,
            image_data@.len() > max_size_bytes,
            width <= picture.width,
            height <= picture.height,
            width == attempt(picture.width as nat, rejected@.len()),
            height == attempt(picture.height as nat, rejected@.len()),
            rejected@.len() + rounds(width as nat, height as nat) == rounds(
                picture.width as nat,
                picture.height as nat,
            ),
            rejected_in_order(
                rejected@,
                picture.width as nat,
                picture.height as nat,
                max_size_bytes as nat,
            ),
        decreases width,
    {
        proof {
            lemma_shrunk_is_smaller(width as nat);
            lemma_shrunk_is_smaller(height as nat);
        }
        let (next_width, next_height) = match next_attempt(width, height) {
            Some(size) => size,
            None => {
                return Reduction { image: Err(ResizeError::ImageTooSmallToShrink), rejected };
            },
        };
        let shrunk_picture = resample(&picture, next_width, next_height);
        let encoded = encode_jpeg(&shrunk_picture);
        match judge(encoded, next_width, next_height, max_size_bytes) {
            Rendering::Fits(bytes) => {
                let shrunk = Reduced { bytes, media_type: JPEG_MEDIA_TYPE.to_owned() };
                return Reduction { image: Ok(shrunk), rejected };
            },
            Rendering::Refused => {
                return Reduction { image: Err(ResizeError::Encode), rejected };
            },
            Rendering::Over(over) => {
                rejected.push(over);
                width = next_width;
                height = next_height;
            },
        }
    }
}

} // verus!
