//! What is written when an image is saved, and what is reported of it.

use vstd::prelude::*;
use vstd::string::*;
use crate::error::{Failure, ResizerError};
use crate::format::{format_named, string_to_image_format, ImageFormat};
use crate::output::{lemma_resolved_path_is_consistent, resolved_path};
use crate::path::{extension, extension_of};
use crate::raster::{strip_alpha, without_alpha, Raster, RasterBuffer};

verus! {

/// What is reported of a saved image.
#[derive(Debug, PartialEq, Eq)]
pub struct ImageInfo {
    /// The width of the image in pixels.
    pub width: u32,
    /// The height of the image in pixels.
    pub height: u32,
    /// The format of the file.
    pub format: ImageFormat,
    /// The path of the file.
    pub path: String,
}

/// The bytes that make up one pixel of the image to encode.
#[derive(Clone, Copy, Debug, PartialEq, Eq, Structural)]
pub enum PixelLayout {
    /// Red, green and blue.
    Rgb8,
    /// Red, green, blue and alpha.
    Rgba8,
}

/// An image that is ready to be encoded and written.
#[derive(Debug, PartialEq, Eq)]
pub struct EncodeJob {
    pub width: u32,
    pub height: u32,
    pub layout: PixelLayout,
    pub pixels: Vec<u8>,
    pub format: ImageFormat,
    pub path: String,
}

/// Why an image is not saved, if it is not: it has no pixel, or the
/// extension of the path is missing, stands for no format that images are
/// saved in, or stands for another format than the one asked for.
pub open spec fn save_refusal(image: Raster, path: Seq<char>, format: ImageFormat) -> Option<
    Failure,
> {
    if image.is_empty() {
        Some(Failure::EmptyBuffer)
    } else {
        match extension(path) {
            None => Some(Failure::MissingExtension),
            Some(ext) => match format_named(ext) {
                None => Some(Failure::UnsupportedFormat(ext)),
                Some(found) => if found != format {
                    Some(Failure::ExtensionMismatch { expected: format, found })
                } else {
                    None
                },
            },
        }
    }
}

/// The layout of the pixels that are encoded in a format: JPEG holds no
/// alpha.
pub open spec fn layout_for(format: ImageFormat) -> PixelLayout {
    match format {
        ImageFormat::Jpeg => PixelLayout::Rgb8,
        ImageFormat::Png => PixelLayout::Rgba8,
    }
}

/// The number of bytes of a pixel.
pub open spec fn bytes_per_pixel(layout: PixelLayout) -> nat {
    match layout {
        PixelLayout::Rgb8 => 3,
        PixelLayout::Rgba8 => 4,
    }
}

/// The bytes that are encoded for pixels with alpha.
pub open spec fn pixels_for(layout: PixelLayout, rgba: Seq<u8>) -> Seq<u8> {
    match layout {
        PixelLayout::Rgb8 => without_alpha(rgba),
        PixelLayout::Rgba8 => rgba,
    }
}

/// Checks that `image` can be saved at `output_path` in `save_format`, and
/// makes it ready for the encoder. Nothing is written.
///
/// An image without pixels is refused with `EmptyBuffer`, whatever the path.
pub fn save_image(image: RasterBuffer, output_path: &str, save_format: ImageFormat) -> (job:
    Result<EncodeJob, ResizerError>)
    ensures
        image@.is_empty() ==> (job matches Err(e) && e@ == Failure::EmptyBuffer),
        match job {
            Ok(j) => {
                &&& save_refusal(image@, output_path@, save_format) is None
                &&& j.width == image@.width
                &&& j.height == image@.height
                &&& j.format == save_format
                &&& j.path@ == output_path@
                &&& j.layout == layout_for(save_format)
                &&& j.pixels@ == pixels_for(j.layout, image@.pixels)
                &&& j.pixels@.len() == j.width as nat * j.height as nat * bytes_per_pixel(
                    j.layout,
                )
            },
            Err(e) => save_refusal(image@, output_path@, save_format) == Some(e@),
        },
{
    if image.is_empty() {
        return Err(ResizerError::EmptyBuffer);
    }
    match extension_of(output_path) {
        None => {
            return Err(ResizerError::MissingExtension);
        },
        Some(ext) => {
            let found: ImageFormat = string_to_image_format(ext.as_str())?;
            if found != save_format {
                return Err(ResizerError::ExtensionMismatch { expected: save_format, found });
            }
        },
    }
    let width: u32 = image.width();
    let height: u32 = image.height();
    let rgba: Vec<u8> = image.into_pixels();
    let path: String = String::from_str(output_path);
    match save_format {
        ImageFormat::Jpeg => {
            let pixels: Vec<u8> = strip_alpha(&rgba);
            assert((width as nat * height as nat * 4) / 4 * 3 == width as nat * height as nat * 3);
            Ok(
                EncodeJob {
                    width,
                    height,
                    layout: PixelLayout::Rgb8,
                    pixels,
                    format: save_format,
                    path,
                },
            )
        },
        ImageFormat::Png => Ok(
            EncodeJob {
                width,
                height,
                layout: PixelLayout::Rgba8,
                pixels: rgba,
                format: save_format,
                path,
            },
        ),
    }
}

/// Reports on an image that the encoder was asked to write: what was
/// saved, or `EncodeFailure` with the encoder's reason.
pub fn saved_image_info(
    width: u32,
    height: u32,
    format: ImageFormat,
    path: &str,
    written: Result<(), String>,
) -> (info: Result<ImageInfo, ResizerError>)
    ensures
        match written {
            Ok(_) => info matches Ok(i) && i.width == width && i.height == height && i.format
                == format && i.path@ == path@,
            Err(reason) => info matches Err(e) && e@ == Failure::EncodeFailure(reason@),
        },
{
    match written {
        Ok(_) => Ok(ImageInfo { width, height, format, path: String::from_str(path) }),
        Err(reason) => Err(ResizerError::EncodeFailure(reason)),
    }
}


/// An image with pixels is accepted at a resolved output path, in the
/// format that the path was resolved for.
pub proof fn lemma_resolved_path_is_accepted(
    image: Raster,
    input: Seq<char>,
    output: Option<Seq<char>>,
    format: ImageFormat,
    directory_exists: bool,
)
    requires
        !image.is_empty(),
        resolved_path(input, output, format, directory_exists) is Ok,
    ensures
        save_refusal(
            image,
            resolved_path(input, output, format, directory_exists)->Ok_0.path,
            format,
        ) is None,
{
    lemma_resolved_path_is_consistent(input, output, format, directory_exists);
}

/// An image without pixels is refused as an empty buffer, at any path and
/// in any format.
pub proof fn lemma_empty_image_is_refused(image: Raster, path: Seq<char>, format: ImageFormat)
    requires
        image.is_empty(),
    ensures
        save_refusal(image, path, format) == Some(Failure::EmptyBuffer),
{
}

} // verus!
