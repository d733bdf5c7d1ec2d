//! Images as rows of RGBA pixels, and their resampling.

use vstd::prelude::*;
use crate::dimensions::{determine_new_dimensions, new_dimensions, ResolvedDimensions};
use crate::error::{Failure, ResizerError};

verus! {

/// An image of `width` by `height` pixels, row by row, four bytes to the
/// pixel: red, green, blue and alpha.
#[derive(Debug, PartialEq, Eq)]
pub struct RasterBuffer {
    width: u32,
    height: u32,
    pixels: Vec<u8>,
}

/// What a `RasterBuffer` holds.
pub struct Raster {
    pub width: u32,
    pub height: u32,
    pub pixels: Seq<u8>,
}

impl Raster {
    /// Whether there are four bytes for each pixel.
    pub open spec fn well_formed(self) -> bool {
        self.pixels.len() == self.width as nat * self.height as nat * 4
    }

    /// Whether the image has no pixel.
    pub open spec fn is_empty(self) -> bool {
        self.width == 0 || self.height == 0
    }
}

impl View for RasterBuffer {
    type V = Raster;

    closed spec fn view(&self) -> Raster {
        Raster { width: self.width, height: self.height, pixels: self.pixels@ }
    }
}

impl RasterBuffer {
    #[verifier::type_invariant]
    spec fn sized(self) -> bool {
        self.pixels@.len() == self.width as nat * self.height as nat * 4
    }

    /// Makes an image of the given pixels, if there are four bytes for each
    /// pixel.
    pub fn new(width: u32, height: u32, pixels: Vec<u8>) -> (buffer: Option<RasterBuffer>)
        ensures
            match buffer {
                Some(b) => b@ == (Raster { width, height, pixels: pixels@ }) && b@.well_formed(),
                None => pixels@.len() != width as nat * height as nat * 4,
            },
    {
        assert(width as nat * height as nat * 4 <= 0xFFFF_FFFF * 0xFFFF_FFFF * 4)
            by (nonlinear_arith)
            requires
                width <= 0xFFFF_FFFF,
                height <= 0xFFFF_FFFF,
        ;
        let wanted: u128 = width as u128 * height as u128 * 4;
        if pixels.len() as u128 == wanted {
            Some(RasterBuffer { width, height, pixels })
        } else {
            None
        }
    }

    /// The number of pixels in a row.
    pub fn width(&self) -> (width: u32)
        ensures
            width == self@.width,
    {
        self.width
    }

    /// The number of rows.
    pub fn height(&self) -> (height: u32)
        ensures
            height == self@.height,
    {
        self.height
    }

    /// The bytes of the pixels.
    pub fn pixels(&self) -> (pixels: &Vec<u8>)
        ensures
            pixels@ == self@.pixels,
            self@.well_formed(),
    {
        proof {
            use_type_invariant(self);
        }
        &self.pixels
    }

    /// Gives up the bytes of the pixels.
    pub fn into_pixels(self) -> (pixels: Vec<u8>)
        ensures
            pixels@ == self@.pixels,
            self@.well_formed(),
    {
        proof {
            use_type_invariant(&self);
        }
        self.pixels
    }

    /// Tells whether the image has no pixel.
    pub fn is_empty(&self) -> (empty: bool)
        ensures
            empty == self@.is_empty(),
    {
        self.width == 0 || self.height == 0
    }
}

#[verifier::external_type_specification]
#[verifier::external_body]
pub struct ExImage<'a>(fast_image_resize::images::Image<'a>);

#[verifier::external_type_specification]
#[verifier::external_body]
pub struct ExImageBufferError(fast_image_resize::ImageBufferError);

#[verifier::external_type_specification]
#[verifier::external_body]
pub struct ExResizeError(fast_image_resize::ResizeError);

/// The width that an image of `fast_image_resize` was made with.
pub uninterp spec fn held_width(image: fast_image_resize::images::Image<'static>) -> u32;

/// Whether the bytes of `width` by `height` pixels can be held in memory.
pub open spec fn fits_memory(width: u32, height: u32) -> bool {
    width as nat * height as nat * 4 <= isize::MAX as nat
}

/// Calls `Image::from_vec_u8` of `fast_image_resize` with the pixel type
/// `U8x4`. The contract claims that an image that it returns keeps the
/// width that it was given.
#[verifier::external_body]
fn source_image(width: u32, height: u32, pixels: &Vec<u8>) -> (made: Result<
    fast_image_resize::images::Image<'static>,
    fast_image_resize::ImageBufferError,
>)
    requires
        pixels@.len() == width as nat * height as nat * 4,
    ensures
        made matches Ok(image) ==> held_width(image) == width,
{
    fast_image_resize::images::Image::from_vec_u8(
        width,
        height,
        pixels.clone(),
        fast_image_resize::PixelType::U8x4,
    )
}

/// Calls `Resizer::resize` of `fast_image_resize` with its default options,
/// on a new image of `width` by `height` pixels of the type `U8x4`, and hands
/// out the bytes of that image. The contract claims that there are four
/// bytes for each pixel: the call writes into the image and does not
/// change its size.
#[verifier::external_body]
fn resample(source: &fast_image_resize::images::Image<'static>, width: u32, height: u32) -> (out:
    Result<Vec<u8>, fast_image_resize::ResizeError>)
    requires
        fits_memory(width, height),
        fits_memory(held_width(*source), height),
    ensures
        out matches Ok(pixels) ==> pixels@.len() == width as nat * height as nat * 4,
{
    let mut target = fast_image_resize::images::Image::new(
        width,
        height,
        fast_image_resize::PixelType::U8x4,
    );
    let options = fast_image_resize::ResizeOptions::default();
    fast_image_resize::Resizer::new().resize(source, &mut target, &options)?;
    Ok(target.into_vec())
}

/// Tells whether the bytes of `width` by `height` pixels can be held in
/// memory.
pub fn check_fits_memory(width: u32, height: u32) -> (fits: bool)
    ensures
        fits == fits_memory(width, height),
{
    assert(width as nat * height as nat * 4 <= 0xFFFF_FFFF * 0xFFFF_FFFF * 4) by (nonlinear_arith)
        requires
            width <= 0xFFFF_FFFF,
            height <= 0xFFFF_FFFF,
    ;
    width as u128 * height as u128 * 4 <= isize::MAX as u128
}

/// What is made of the outcome of a resampling to `dims`: an image of the
/// pixels that came back, where there are four bytes for each pixel of
/// `dims`; else `ResizeFailure`.
pub open spec fn resampled(dims: ResolvedDimensions, pixels: Option<Seq<u8>>) -> Result<
    Raster,
    Failure,
> {
    match pixels {
        Some(p) => if p.len() == dims.width as nat * dims.height as nat * 4 {
            Ok(Raster { width: dims.width, height: dims.height, pixels: p })
        } else {
            Err(Failure::ResizeFailure)
        },
        None => Err(Failure::ResizeFailure),
    }
}

/// The bytes that a resampling returned, if it returned any.
pub open spec fn bytes_in(outcome: Result<Vec<u8>, fast_image_resize::ResizeError>) -> Option<
    Seq<u8>,
> {
    match outcome {
        Ok(pixels) => Some(pixels@),
        Err(_) => None,
    }
}

/// Makes the resized image of the outcome of a resampling.
pub fn resampled_image(
    dims: ResolvedDimensions,
    outcome: Result<Vec<u8>, fast_image_resize::ResizeError>,
) -> (image: Result<RasterBuffer, ResizerError>)
    ensures
        match image {
            Ok(buffer) => resampled(dims, bytes_in(outcome)) == Ok::<Raster, Failure>(buffer@),
            Err(e) => resampled(dims, bytes_in(outcome)) == Err::<Raster, Failure>(e@),
        },
{
    match outcome {
        Ok(pixels) => match RasterBuffer::new(dims.width, dims.height, pixels) {
            Some(buffer) => Ok(buffer),
            None => Err(ResizerError::ResizeFailure),
        },
        Err(_) => Err(ResizerError::ResizeFailure),
    }
}

/// What `resize_image` returns before any pixel is resampled, if it ends
/// there: the failure of `new_dimensions`; `InvalidSource` for an input
/// without pixels; `ResizeFailure` where the pixels would not fit in memory.
pub open spec fn resize_refusal(input: Raster, width: Option<u32>, height: Option<u32>) -> Option<
    Failure,
> {
    match new_dimensions(input.width, input.height, width, height) {
        Err(failure) => Some(failure),
        Ok(dims) => if input.is_empty() {
            Some(Failure::InvalidSource)
        } else if !fits_memory(dims.width, dims.height) || !fits_memory(input.width, dims.height) {
            Some(Failure::ResizeFailure)
        } else {
            None
        },
    }
}

/// Resizes `input` to the requested dimensions; a missing one follows from
/// the aspect ratio of `input`. The input is left as it is.
///
/// Where `resize_refusal` names a failure, that is the result. Else the
/// result is an image of the resolved dimensions, or `ResizeFailure` where
/// the resampling reports an error.
pub fn resize_image(input: &RasterBuffer, width: Option<u32>, height: Option<u32>) -> (resized:
    Result<RasterBuffer, ResizerError>)
    ensures
        match resize_refusal(input@, width, height) {
            Some(failure) => resized matches Err(e) && e@ == failure,
            None => match resized {
                Ok(buffer) => {
                    let dims = new_dimensions(input@.width, input@.height, width, height)->Ok_0;
                    &&& buffer@.width == dims.width
                    &&& buffer@.height == dims.height
                    &&& buffer@.well_formed()
                },
                Err(e) => e@ == Failure::ResizeFailure,
            },
        },
{
    let dims: ResolvedDimensions = determine_new_dimensions(
        input.width(),
        input.height(),
        width,
        height,
    )?;
    if input.is_empty() {
        return Err(ResizerError::InvalidSource);
    }
    if !check_fits_memory(dims.width, dims.height) || !check_fits_memory(
        input.width(),
        dims.height,
    ) {
        return Err(ResizerError::ResizeFailure);
    }
    let source = match source_image(input.width(), input.height(), input.pixels()) {
        Ok(image) => image,
        Err(_) => return Err(ResizerError::ResizeFailure),
    };
    resampled_image(dims, resample(&source, dims.width, dims.height))
}

/// The bytes of `rgba` without every fourth one.
pub open spec fn without_alpha(rgba: Seq<u8>) -> Seq<u8> {
    Seq::new((rgba.len() / 4 * 3) as nat, |i: int| rgba[i / 3 * 4 + i % 3])
}

/// Drops the alpha byte of each pixel.
pub fn strip_alpha(rgba: &Vec<u8>) -> (rgb: Vec<u8>)
    ensures
        rgb@ == without_alpha(rgba@),
{
    let len: usize = rgba.len();
    let count: usize = len / 4;
    let mut rgb: Vec<u8> = Vec::new();
    let mut pixel: usize = 0;
    while pixel < count
        invariant
            pixel <= count,
            len == rgba@.len(),
            count == len / 4,
            rgb@.len() == pixel * 3,
            forall|i: int| 0 <= i < rgb@.len() ==> rgb@[i] == rgba@[i / 3 * 4 + i % 3],
        decreases count - pixel,
    {
        assert(pixel * 4 + 3 < len);
        rgb.push(rgba[pixel * 4]);
        rgb.push(rgba[pixel * 4 + 1]);
        rgb.push(rgba[pixel * 4 + 2]);
        pixel += 1;
    }
    assert(rgb@ =~= without_alpha(rgba@));
    rgb
}

} // verus!
