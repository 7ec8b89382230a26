//! The receipt pipeline between decoding and writing: grayscale conversion,
//! binarisation, and the errors that carry the offending path.

use vstd::prelude::*;
use crate::grid::{Grid, GrayBuffer};
use crate::threshold::{binarize, is_binary, threshold_grid, RECEIPT_THRESHOLD};
use image::{DynamicImage, ImageError};

verus! {

#[verifier::external_type_specification]
#[verifier::external_body]
pub struct ExDynamicImage(DynamicImage);

#[verifier::external_type_specification]
#[verifier::external_body]
pub struct ExImageError(ImageError);

/// Why a run failed, with the path that was being read or written.
#[derive(Debug, Clone, PartialEq, Eq)]
pub enum OcrError {
    /// The source image could not be read or decoded.
    Load { path: String, detail: String },
    /// The processed image could not be encoded or written.
    Save { path: String, detail: String },
}

impl OcrError {
    /// The path the failed operation was working on.
    pub fn path(&self) -> (r: &String)
        ensures
            r@ == match self {
                OcrError::Load { path, .. } => path@,
                OcrError::Save { path, .. } => path@,
            },
    {
        match self {
            OcrError::Load { path, .. } => path,
            OcrError::Save { path, .. } => path,
        }
    }

    /// The process exit status that reports this failure: 1 for a failed
    /// load, 2 for a failed save.
    pub fn exit_code(&self) -> (r: i32)
        ensures
            r == (if self is Load { 1i32 } else { 2i32 }),
    {
        match self {
            OcrError::Load { .. } => 1,
            OcrError::Save { .. } => 2,
        }
    }
}

/// The 8-bit luminance of an image, as `DynamicImage::to_luma8` computes it
/// from the image's pixels and colour space.
pub uninterp spec fn luma8_of(img: DynamicImage) -> Grid;

/// Relies on `DynamicImage::to_luma8`, a copy of the image as 8-bit
/// luminance, and on `ImageBuffer::dimensions` and `ImageBuffer::into_raw`
/// of that copy: an `ImageBuffer` always holds at least one sample per pixel,
/// and its pixels are the first `width * height` samples, row by row.
#[verifier::external_body]
fn luma8_samples(img: &DynamicImage) -> (r: (u32, u32, Vec<u8>))
    ensures
        r.0 as int * r.1 as int <= r.2@.len(),
        luma8_of(*img) == (Grid {
            width: r.0 as nat,
            height: r.1 as nat,
            pixels: r.2@.take(r.0 as int * r.1 as int),
        }),
{
    let gray = img.to_luma8();
    let (width, height) = gray.dimensions();
    (width, height, gray.into_raw())
}

/// Relies on the `Display` impl of `ImageError` for a readable account of
/// the failure.
#[verifier::external_body]
fn describe(e: &ImageError) -> (r: String) {
    e.to_string()
}

/// The image reduced to one 8-bit luminance sample per pixel.
pub fn to_gray(img: &DynamicImage) -> (r: GrayBuffer)
    ensures
        r@ == luma8_of(*img),
        r@.wf(),
{
    let (width, height, raw) = luma8_samples(img);
    let r = GrayBuffer::from_raw(width, height, raw).unwrap();
    assert(r@.pixels.len() == width as int * height as int);
    r
}

/// The receipt preprocessing of a decoded image: its luminance, binarised
/// with `RECEIPT_THRESHOLD`.
pub fn preprocess(img: &DynamicImage) -> (r: GrayBuffer)
    ensures
        r@ == threshold_grid(luma8_of(*img), RECEIPT_THRESHOLD),
        r@.width == luma8_of(*img).width,
        r@.height == luma8_of(*img).height,
        r@.wf(),
        is_binary(r@),
{
    binarize(to_gray(img))
}

/// Carries on from the attempt to decode the image at `path`: a failure
/// becomes a load error naming `path`, a decoded image is preprocessed.
pub fn optimize_decoded(path: &str, loaded: Result<DynamicImage, ImageError>) -> (r: Result<
    GrayBuffer,
    OcrError,
>)
    ensures
        loaded is Err <==> r is Err,
        r matches Err(e) ==> (e matches OcrError::Load { path: p, .. } && p@ == path@),
        loaded matches Ok(img) ==> (r matches Ok(b) && b@ == threshold_grid(
            luma8_of(img),
            RECEIPT_THRESHOLD,
        )),
        r matches Ok(b) ==> b@.wf() && is_binary(b@),
{
    match loaded {
        Ok(img) => Ok(preprocess(&img)),
        Err(e) => Err(OcrError::Load { path: path.to_owned(), detail: describe(&e) }),
    }
}

/// Carries on from the attempt to write the result to `path`: success
/// returns `path`, a failure becomes a save error naming it.
pub fn finish_save(path: &str, saved: Result<(), ImageError>) -> (r: Result<String, OcrError>)
    ensures
        saved is Ok <==> r is Ok,
        r matches Ok(p) ==> p@ == path@,
        r matches Err(e) ==> (e matches OcrError::Save { path: p, .. } && p@ == path@),
{
    match saved {
        Ok(()) => Ok(path.to_owned()),
        Err(e) => Err(OcrError::Save { path: path.to_owned(), detail: describe(&e) }),
    }
}

} // verus!
