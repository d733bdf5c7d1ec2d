//! The formats that an image can be saved in, and the rules that pick one.

use vstd::prelude::*;
use vstd::string::*;
use crate::error::{Failure, ResizerError};
use crate::path::{extension, extension_of};
use crate::text::{same_ignoring_case, same_letters, same_text};

verus! {

/// A format that images are saved in.
#[derive(Clone, Copy, Debug, PartialEq, Eq, Structural)]
pub enum ImageFormat {
    Jpeg,
    Png,
}

/// A format that the first bytes of a file can give away.
#[derive(Clone, Copy, Debug, PartialEq, Eq, Structural)]
pub enum DetectedFormat {
    Png,
    Jpeg,
    Gif,
    WebP,
    Pnm,
    Tiff,
    Tga,
    Dds,
    Bmp,
    Ico,
    Hdr,
    OpenExr,
    Farbfeld,
    Avif,
    Qoi,
    /// A format that this library has no name for.
    Other,
}

/// The name of a format, as error texts give it.
pub open spec fn format_name(format: ImageFormat) -> Seq<char> {
    match format {
        ImageFormat::Jpeg => "Jpeg"@,
        ImageFormat::Png => "Png"@,
    }
}

/// The extension that files of a format have by default.
pub open spec fn canonical_extension(format: ImageFormat) -> Seq<char> {
    match format {
        ImageFormat::Jpeg => "jpg"@,
        ImageFormat::Png => "png"@,
    }
}

impl ImageFormat {
    /// The name of the format, as error texts give it.
    pub fn name(&self) -> (name: &'static str)
        ensures
            name@ == format_name(*self),
    {
        match self {
            ImageFormat::Jpeg => "Jpeg",
            ImageFormat::Png => "Png",
        }
    }

    /// The extension that files of the format have by default.
    pub fn extension(&self) -> (ext: &'static str)
        ensures
            ext@ == canonical_extension(*self),
    {
        match self {
            ImageFormat::Jpeg => "jpg",
            ImageFormat::Png => "png",
        }
    }
}

/// How a format was arrived at.
#[derive(Clone, Copy, Debug, PartialEq, Eq, Structural)]
pub enum FormatSource {
    /// The caller named it.
    Explicit,
    /// The extension of the output path stands for it.
    Extension,
    /// The first bytes of the content gave it away.
    Content,
    /// Nothing told: JPEG was taken.
    Fallback,
}

/// A format to save in, and how it was arrived at.
#[derive(Clone, Copy, Debug, PartialEq, Eq, Structural)]
pub struct FormatChoice {
    pub format: ImageFormat,
    pub source: FormatSource,
}

/// The format that a name or an extension stands for, whatever the case of
/// its letters.
pub open spec fn format_named(name: Seq<char>) -> Option<ImageFormat> {
    if same_letters(name, "jpeg"@) || same_letters(name, "jpg"@) {
        Some(ImageFormat::Jpeg)
    } else if same_letters(name, "png"@) {
        Some(ImageFormat::Png)
    } else {
        None
    }
}

/// The format to save in that a detected format is, if it is one.
pub open spec fn encodable(format: DetectedFormat) -> Option<ImageFormat> {
    match format {
        DetectedFormat::Jpeg => Some(ImageFormat::Jpeg),
        DetectedFormat::Png => Some(ImageFormat::Png),
        _ => None,
    }
}

/// A format to save in, as a detected format.
pub open spec fn detected(format: ImageFormat) -> DetectedFormat {
    match format {
        ImageFormat::Jpeg => DetectedFormat::Jpeg,
        ImageFormat::Png => DetectedFormat::Png,
    }
}

/// The name of a detected format.
pub open spec fn detected_name(format: DetectedFormat) -> Seq<char> {
    match format {
        DetectedFormat::Png => "Png"@,
        DetectedFormat::Jpeg => "Jpeg"@,
        DetectedFormat::Gif => "Gif"@,
        DetectedFormat::WebP => "WebP"@,
        DetectedFormat::Pnm => "Pnm"@,
        DetectedFormat::Tiff => "Tiff"@,
        DetectedFormat::Tga => "Tga"@,
        DetectedFormat::Dds => "Dds"@,
        DetectedFormat::Bmp => "Bmp"@,
        DetectedFormat::Ico => "Ico"@,
        DetectedFormat::Hdr => "Hdr"@,
        DetectedFormat::OpenExr => "OpenExr"@,
        DetectedFormat::Farbfeld => "Farbfeld"@,
        DetectedFormat::Avif => "Avif"@,
        DetectedFormat::Qoi => "Qoi"@,
        DetectedFormat::Other => "Other"@,
    }
}

impl DetectedFormat {
    /// The name of the format.
    pub fn name(&self) -> (name: &'static str)
        ensures
            name@ == detected_name(*self),
    {
        match self {
            DetectedFormat::Png => "Png",
            DetectedFormat::Jpeg => "Jpeg",
            DetectedFormat::Gif => "Gif",
            DetectedFormat::WebP => "WebP",
            DetectedFormat::Pnm => "Pnm",
            DetectedFormat::Tiff => "Tiff",
            DetectedFormat::Tga => "Tga",
            DetectedFormat::Dds => "Dds",
            DetectedFormat::Bmp => "Bmp",
            DetectedFormat::Ico => "Ico",
            DetectedFormat::Hdr => "Hdr",
            DetectedFormat::OpenExr => "OpenExr",
            DetectedFormat::Farbfeld => "Farbfeld",
            DetectedFormat::Avif => "Avif",
            DetectedFormat::Qoi => "Qoi",
            DetectedFormat::Other => "Other",
        }
    }
}

/// The format that `image::guess_format` finds in the first bytes of
/// `bytes`, if it finds one.
pub uninterp spec fn sniffed_format(bytes: Seq<u8>) -> Option<DetectedFormat>;

/// Calls `image::guess_format`, which holds the start of `bytes` against a
/// fixed table of signatures. The contract claims only that the answer
/// depends on the bytes alone; `None` stands for the error that the call
/// returns where no signature fits.
#[verifier::external_body]
fn guess_format(bytes: &[u8]) -> (found: Option<DetectedFormat>)
    ensures
        found == sniffed_format(bytes@),
{
    Some(match image::guess_format(bytes).ok()? {
        image::ImageFormat::Png => DetectedFormat::Png, image::ImageFormat::Jpeg => DetectedFormat::Jpeg,
        image::ImageFormat::Gif => DetectedFormat::Gif, image::ImageFormat::WebP => DetectedFormat::WebP,
        image::ImageFormat::Pnm => DetectedFormat::Pnm, image::ImageFormat::Tiff => DetectedFormat::Tiff,
        image::ImageFormat::Tga => DetectedFormat::Tga, image::ImageFormat::Dds => DetectedFormat::Dds,
        image::ImageFormat::Bmp => DetectedFormat::Bmp, image::ImageFormat::Ico => DetectedFormat::Ico,
        image::ImageFormat::Hdr => DetectedFormat::Hdr, image::ImageFormat::OpenExr => DetectedFormat::OpenExr,
        image::ImageFormat::Farbfeld => DetectedFormat::Farbfeld, image::ImageFormat::Avif => DetectedFormat::Avif,
        image::ImageFormat::Qoi => DetectedFormat::Qoi, _ => DetectedFormat::Other,
    })
}

/// Finds the format that the first bytes of `bytes` give away.
pub fn sniff_format(bytes: &[u8]) -> (found: Option<DetectedFormat>)
    ensures
        found == sniffed_format(bytes@),
{
    guess_format(bytes)
}

/// Maps `jpeg`, `jpg` and `png`, in any case of their letters, to the format
/// that they name.
pub fn string_to_image_format(format: &str) -> (named: Result<ImageFormat, ResizerError>)
    ensures
        match named {
            Ok(f) => format_named(format@) == Some(f),
            Err(e) => format_named(format@) is None && e@ == Failure::UnsupportedFormat(format@),
        },
{
    if same_ignoring_case(format, "jpeg") || same_ignoring_case(format, "jpg") {
        Ok(ImageFormat::Jpeg)
    } else if same_ignoring_case(format, "png") {
        Ok(ImageFormat::Png)
    } else {
        Err(ResizerError::UnsupportedFormat(String::from_str(format)))
    }
}

/// Accepts a detected format that images can be saved in.
pub fn validate_new_image_format(format: DetectedFormat) -> (valid: Result<
    ImageFormat,
    ResizerError,
>)
    ensures
        match valid {
            Ok(f) => encodable(format) == Some(f),
            Err(e) => encodable(format) is None && e@ == Failure::UnsupportedFormat(
                detected_name(format),
            ),
        },
{
    match format {
        DetectedFormat::Jpeg => Ok(ImageFormat::Jpeg),
        DetectedFormat::Png => Ok(ImageFormat::Png),
        _ => Err(ResizerError::UnsupportedFormat(String::from_str(format.name()))),
    }
}

/// The extension that `path` gets for `format`: its own where that is `jpg`
/// or `jpeg` and the format is JPEG, else the format's default.
pub open spec fn chosen_extension(path: Seq<char>, format: ImageFormat) -> Seq<char> {
    match extension(path) {
        Some(ext) => if format == ImageFormat::Jpeg && (ext == "jpg"@ || ext == "jpeg"@) {
            ext
        } else {
            canonical_extension(format)
        },
        None => canonical_extension(format),
    }
}

/// Picks the extension of an output file of the given format.
pub fn determine_extension(path: &str, format: ImageFormat) -> (ext: String)
    ensures
        ext@ == chosen_extension(path@, format),
{
    match extension_of(path) {
        Some(ext) => {
            if format == ImageFormat::Jpeg && (same_text(ext.as_str(), "jpg") || same_text(
                ext.as_str(),
                "jpeg",
            )) {
                ext
            } else {
                String::from_str(format.extension())
            }
        },
        None => String::from_str(format.extension()),
    }
}

/// The view of an optional string slice.
pub open spec fn slice_text(s: Option<&str>) -> Option<Seq<char>> {
    match s {
        Some(t) => Some(t@),
        None => None,
    }
}

/// The format that the extension of a path stands for.
pub open spec fn path_format(path: Option<Seq<char>>) -> Option<ImageFormat> {
    match path {
        Some(p) => match extension(p) {
            Some(ext) => format_named(ext),
            None => None,
        },
        None => None,
    }
}

/// The format that is taken where the caller named none: that of the path's
/// extension, else the one found in the content, else JPEG.
pub open spec fn inferred_format(
    path: Option<Seq<char>>,
    sniffed: Option<DetectedFormat>,
) -> DetectedFormat {
    match path_format(path) {
        Some(f) => detected(f),
        None => match sniffed {
            Some(d) => d,
            None => DetectedFormat::Jpeg,
        },
    }
}

/// How the format is arrived at.
pub open spec fn format_source(
    explicit: Option<Seq<char>>,
    path: Option<Seq<char>>,
    sniffed: Option<DetectedFormat>,
) -> FormatSource {
    if explicit is Some {
        FormatSource::Explicit
    } else if path_format(path) is Some {
        FormatSource::Extension
    } else if sniffed is Some {
        FormatSource::Content
    } else {
        FormatSource::Fallback
    }
}

/// The format to save in: the one that the caller named, else the inferred
/// one. A name or an inferred format other than JPEG and PNG is refused.
pub open spec fn chosen_format(
    explicit: Option<Seq<char>>,
    path: Option<Seq<char>>,
    sniffed: Option<DetectedFormat>,
) -> Result<ImageFormat, Failure> {
    match explicit {
        Some(name) => match format_named(name) {
            Some(f) => Ok(f),
            None => Err(Failure::UnsupportedFormat(name)),
        },
        None => match encodable(inferred_format(path, sniffed)) {
            Some(f) => Ok(f),
            None => Err(Failure::UnsupportedFormat(detected_name(inferred_format(path, sniffed)))),
        },
    }
}

/// Infers a format from the extension of `path` and from what was found in
/// the content.
pub fn infer_format_from(path: Option<&str>, sniffed: Option<DetectedFormat>) -> (format:
    DetectedFormat)
    ensures
        format == inferred_format(slice_text(path), sniffed),
{
    if let Some(p) = path {
        if let Some(ext) = extension_of(p) {
            if let Ok(f) = string_to_image_format(ext.as_str()) {
                return match f {
                    ImageFormat::Jpeg => DetectedFormat::Jpeg,
                    ImageFormat::Png => DetectedFormat::Png,
                };
            }
        }
    }
    match sniffed {
        Some(d) => d,
        None => DetectedFormat::Jpeg,
    }
}

/// Infers a format from the extension of `path` and from the first bytes of
/// `bytes`.
pub fn infer_format(bytes: &[u8], path: Option<&str>) -> (format: DetectedFormat)
    ensures
        format == inferred_format(slice_text(path), sniffed_format(bytes@)),
{
    infer_format_from(path, guess_format(bytes))
}

/// Picks the format to save in from the format that the caller named, the
/// output path and what was found in the content, in this order.
pub fn choose_format(
    explicit: Option<&str>,
    output_path: Option<&str>,
    sniffed: Option<DetectedFormat>,
) -> (choice: Result<FormatChoice, ResizerError>)
    ensures
        match choice {
            Ok(c) => chosen_format(slice_text(explicit), slice_text(output_path), sniffed) == Ok::<
                ImageFormat,
                Failure,
            >(c.format) && c.source == format_source(
                slice_text(explicit),
                slice_text(output_path),
                sniffed,
            ),
            Err(e) => chosen_format(slice_text(explicit), slice_text(output_path), sniffed) == Err::<
                ImageFormat,
                Failure,
            >(e@),
        },
{
    match explicit {
        Some(name) => {
            let format: ImageFormat = string_to_image_format(name)?;
            Ok(FormatChoice { format, source: FormatSource::Explicit })
        },
        None => {
            let inferred: DetectedFormat = infer_format_from(output_path, sniffed);
            let format: ImageFormat = validate_new_image_format(inferred)?;
            let source: FormatSource = if path_has_format(output_path) {
                FormatSource::Extension
            } else if sniffed.is_some() {
                FormatSource::Content
            } else {
                FormatSource::Fallback
            };
            Ok(FormatChoice { format, source })
        },
    }
}

/// Tells whether the extension of `path` stands for a format.
pub fn path_has_format(path: Option<&str>) -> (known: bool)
    ensures
        known == path_format(slice_text(path)) is Some,
{
    match path {
        Some(p) => match extension_of(p) {
            Some(ext) => string_to_image_format(ext.as_str()).is_ok(),
            None => false,
        },
        None => false,
    }
}

/// What the content contributes to the choice of a format.
pub open spec fn sniffed_in(buffer: Option<&[u8]>) -> Option<DetectedFormat> {
    match buffer {
        Some(bytes) => sniffed_format(bytes@),
        None => None,
    }
}

/// Picks the format to save in from the format that the caller named, the
/// output path and the content, in this order.
pub fn resolve_format(explicit: Option<&str>, output_path: Option<&str>, buffer: Option<&[u8]>) -> (format:
    Result<ImageFormat, ResizerError>)
    ensures
        match format {
            Ok(f) => chosen_format(
                slice_text(explicit),
                slice_text(output_path),
                sniffed_in(buffer),
            ) == Ok::<ImageFormat, Failure>(f),
            Err(e) => chosen_format(
                slice_text(explicit),
                slice_text(output_path),
                sniffed_in(buffer),
            ) == Err::<ImageFormat, Failure>(e@),
        },
{
    let sniffed: Option<DetectedFormat> = match buffer {
        Some(bytes) => guess_format(bytes),
        None => None,
    };
    match choose_format(explicit, output_path, sniffed) {
        Ok(choice) => Ok(choice.format),
        Err(e) => Err(e),
    }
}

/// The formats that an input file may have.
pub open spec fn supported_formats() -> Seq<DetectedFormat> {
    seq![
        DetectedFormat::Png,
        DetectedFormat::Jpeg,
        DetectedFormat::Gif,
        DetectedFormat::WebP,
        DetectedFormat::Pnm,
        DetectedFormat::Tiff,
        DetectedFormat::Tga,
        DetectedFormat::Dds,
        DetectedFormat::Bmp,
        DetectedFormat::Ico,
        DetectedFormat::Hdr,
        DetectedFormat::OpenExr,
        DetectedFormat::Farbfeld,
        DetectedFormat::Avif,
        DetectedFormat::Qoi,
    ]
}

/// Lists the formats that an input file may have.
pub fn supported_image_formats() -> (formats: Vec<DetectedFormat>)
    ensures
        formats@ == supported_formats(),
{
    let formats: Vec<DetectedFormat> = vec![
        DetectedFormat::Png,
        DetectedFormat::Jpeg,
        DetectedFormat::Gif,
        DetectedFormat::WebP,
        DetectedFormat::Pnm,
        DetectedFormat::Tiff,
        DetectedFormat::Tga,
        DetectedFormat::Dds,
        DetectedFormat::Bmp,
        DetectedFormat::Ico,
        DetectedFormat::Hdr,
        DetectedFormat::OpenExr,
        DetectedFormat::Farbfeld,
        DetectedFormat::Avif,
        DetectedFormat::Qoi,
    ];
    assert(formats@ =~= supported_formats());
    formats
}

/// Whether a file that starts with `header` is an image in one of the
/// supported formats.
pub open spec fn is_supported_image(header: Seq<u8>) -> bool {
    match sniffed_format(header) {
        Some(f) => supported_formats().contains(f),
        None => false,
    }
}

/// Tells whether a file that starts with `header` is an image in one of the
/// supported formats.
pub fn is_image(header: &[u8]) -> (image: bool)
    ensures
        image == is_supported_image(header@),
{
    match guess_format(header) {
        Some(f) => {
            let formats: Vec<DetectedFormat> = supported_image_formats();
            let mut i: usize = 0;
            while i < formats.len()
                invariant
                    i <= formats.len(),
                    formats@ == supported_formats(),
                    sniffed_format(header@) == Some(f),
                    forall|j: int| 0 <= j < i ==> formats@[j] != f,
                decreases formats.len() - i,
            {
                if formats[i] == f {
                    assert(supported_formats()[i as int] == f);
                    return true;
                }
                i += 1;
            }
            false
        },
        None => false,
    }
}


/// A format that the caller names decides alone: neither the output path
/// nor the content changes what is chosen.
pub proof fn lemma_explicit_format_overrides(
    name: Seq<char>,
    path: Option<Seq<char>>,
    sniffed: Option<DetectedFormat>,
    other_path: Option<Seq<char>>,
    other_sniffed: Option<DetectedFormat>,
)
    ensures
        chosen_format(Some(name), path, sniffed) == chosen_format(
            Some(name),
            other_path,
            other_sniffed,
        ),
        format_named(name) matches Some(format) ==> chosen_format(Some(name), path, sniffed) == Ok::<
            ImageFormat,
            Failure,
        >(format),
        format_source(Some(name), path, sniffed) == FormatSource::Explicit,
{
}

/// `jpeg` and `jpg` name JPEG, and `png` names PNG.
pub proof fn lemma_format_names()
    ensures
        format_named("jpeg"@) == Some(ImageFormat::Jpeg),
        format_named("jpg"@) == Some(ImageFormat::Jpeg),
        format_named("png"@) == Some(ImageFormat::Png),
{
    reveal_strlit("jpeg");
    reveal_strlit("jpg");
    reveal_strlit("png");
    assert(crate::text::lowered("png"@).len() == 3);
    assert(crate::text::lowered("jpeg"@).len() == 4);
    assert(crate::text::lowered("jpg"@).len() == 3);
    assert(crate::text::lowered("png"@)[0] == 'p');
    assert(crate::text::lowered("jpg"@)[0] == 'j');
}

/// Without a named format, the extension of the output path decides before
/// the content does.
pub proof fn lemma_extension_before_content(
    path: Seq<char>,
    sniffed: Option<DetectedFormat>,
)
    requires
        path_format(Some(path)) is Some,
    ensures
        chosen_format(None, Some(path), sniffed) == Ok::<ImageFormat, Failure>(
            path_format(Some(path))->0,
        ),
        format_source(None, Some(path), sniffed) == FormatSource::Extension,
{
}

/// Where neither a name, nor the output path, nor the content tells the
/// format, JPEG is taken.
pub proof fn lemma_falls_back_to_jpeg(path: Option<Seq<char>>)
    requires
        path_format(path) is None,
    ensures
        chosen_format(None, path, None) == Ok::<ImageFormat, Failure>(ImageFormat::Jpeg),
        format_source(None, path, None) == FormatSource::Fallback,
{
}


/// The extension that is picked for a format stands for that format, and
/// is a word without `.` and `/`.
pub proof fn lemma_chosen_extension_names_format(path: Seq<char>, format: ImageFormat)
    ensures
        format_named(chosen_extension(path, format)) == Some(format),
        chosen_extension(path, format).len() > 0,
        !crate::path_laws::holds(chosen_extension(path, format), '/'),
        !crate::path_laws::holds(chosen_extension(path, format), '.'),
        chosen_extension(path, format) == "jpg"@ || chosen_extension(path, format) == "jpeg"@
            || chosen_extension(path, format) == "png"@,
{
    lemma_format_names();
    reveal_strlit("jpeg");
    reveal_strlit("jpg");
    reveal_strlit("png");
}

} // verus!
