//! Resizing of raster images: the rules that decide the target dimensions,
//! the output format and the output path, the resampling of the pixels, and
//! the checks that stand before a file is written.
//!
//! Nothing here touches the file system or the console. A caller looks for
//! directories and files, asks the operator and writes the encoded image,
//! and tells the functions of this library what it found.

pub mod dimensions;
pub mod error;
pub mod format;
pub mod gate;
pub mod output;
pub mod path;
pub mod path_laws;
pub mod raster;
pub mod save;
pub mod text;

pub use dimensions::{determine_new_dimensions, ResolvedDimensions};
pub use error::ResizerError;
pub use format::{
    choose_format, determine_extension, infer_format, infer_format_from, is_image, resolve_format,
    sniff_format, string_to_image_format, supported_image_formats, validate_new_image_format,
    DetectedFormat, FormatChoice, FormatSource, ImageFormat,
};
pub use gate::{check_if_path_exists, confirm_replacement, is_affirmative, GateStep, PathProbe};
pub use output::{
    determine_output_path, determine_save_format_and_path, resolve_path, validate_output_path,
    OutputSpec,
};
pub use raster::{resize_image, RasterBuffer};
pub use save::{save_image, saved_image_info, EncodeJob, ImageInfo, PixelLayout};
