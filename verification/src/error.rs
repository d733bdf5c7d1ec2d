//! The failures that the library reports.

use vstd::prelude::*;
use vstd::string::*;
use crate::format::{format_name, ImageFormat};

verus! {

/// Why an operation of the library was refused.
#[derive(Debug, PartialEq, Eq)]
pub enum ResizerError {
    /// Neither a width nor a height was requested.
    MissingDimension,
    /// The source image has no width or no height.
    InvalidSource,
    /// The pixels could not be resampled.
    ResizeFailure,
    /// The named format is neither JPEG nor PNG.
    UnsupportedFormat(String),
    /// The named directory of the output path does not exist.
    DirectoryNotFound(String),
    /// The output path has an extension other than `jpeg`, `jpg` or `png`.
    InvalidExtension,
    /// It could not be found out whether the output path exists; with the
    /// reason.
    PathCheckFailed(String),
    /// The named file exists and the operator declined to replace it.
    Cancelled(String),
    /// The image could not be encoded or written; with the reason.
    EncodeFailure(String),
    /// The image to save has no width or no height.
    EmptyBuffer,
    /// The extension of the output path stands for another format than the
    /// one to save in.
    ExtensionMismatch { expected: ImageFormat, found: ImageFormat },
    /// The output path to save to has no extension.
    MissingExtension,
}

/// A failure with its texts as sequences of characters.
pub enum Failure {
    MissingDimension,
    InvalidSource,
    ResizeFailure,
    UnsupportedFormat(Seq<char>),
    DirectoryNotFound(Seq<char>),
    InvalidExtension,
    PathCheckFailed(Seq<char>),
    Cancelled(Seq<char>),
    EncodeFailure(Seq<char>),
    EmptyBuffer,
    ExtensionMismatch { expected: ImageFormat, found: ImageFormat },
    MissingExtension,
}

impl View for ResizerError {
    type V = Failure;

    open spec fn view(&self) -> Failure {
        match self {
            ResizerError::MissingDimension => Failure::MissingDimension,
            ResizerError::InvalidSource => Failure::InvalidSource,
            ResizerError::ResizeFailure => Failure::ResizeFailure,
            ResizerError::UnsupportedFormat(name) => Failure::UnsupportedFormat(name@),
            ResizerError::DirectoryNotFound(dir) => Failure::DirectoryNotFound(dir@),
            ResizerError::InvalidExtension => Failure::InvalidExtension,
            ResizerError::PathCheckFailed(reason) => Failure::PathCheckFailed(reason@),
            ResizerError::Cancelled(path) => Failure::Cancelled(path@),
            ResizerError::EncodeFailure(reason) => Failure::EncodeFailure(reason@),
            ResizerError::EmptyBuffer => Failure::EmptyBuffer,
            ResizerError::ExtensionMismatch { expected, found } => Failure::ExtensionMismatch {
                expected: *expected,
                found: *found,
            },
            ResizerError::MissingExtension => Failure::MissingExtension,
        }
    }
}

/// The text that tells the operator of a failure.
pub open spec fn message_text(failure: Failure) -> Seq<char> {
    match failure {
        Failure::MissingDimension => "At least one of width or height must be specified"@,
        Failure::InvalidSource => "The source image has no width or no height"@,
        Failure::ResizeFailure => "Failed to resize image"@,
        Failure::UnsupportedFormat(name) => "Unsupported image format "@ + name,
        Failure::DirectoryNotFound(dir) => "The given output directory \""@ + dir
            + "\" cannot be found."@,
        Failure::InvalidExtension =>
            "You need to specify a valid extension, either jpeg, png or no extension."@,
        Failure::PathCheckFailed(reason) => "Error checking path: "@ + reason,
        Failure::Cancelled(path) => "\""@ + path + "\" already exists. Operation cancelled!"@,
        Failure::EncodeFailure(reason) => "Failed to save image: "@ + reason,
        Failure::EmptyBuffer => "Failed to save image: Empty image buffer"@,
        Failure::ExtensionMismatch { expected, found } =>
            "Output file extension is not compatible with the specified format. Expected: "@
            + format_name(expected) + ", got: "@ + format_name(found),
        Failure::MissingExtension => "Output path has no file extension"@,
    }
}

impl ResizerError {
    /// The text that tells the operator of this failure.
    pub fn message(&self) -> (text: String)
        ensures
            text@ == message_text(self@),
    {
        match self {
            ResizerError::MissingDimension => String::from_str(
                "At least one of width or height must be specified",
            ),
            ResizerError::InvalidSource => String::from_str(
                "The source image has no width or no height",
            ),
            ResizerError::ResizeFailure => String::from_str("Failed to resize image"),
            ResizerError::UnsupportedFormat(name) => {
                let mut text: String = String::from_str("Unsupported image format ");
                text.append(name.as_str());
                text
            },
            ResizerError::DirectoryNotFound(dir) => {
                let mut text: String = String::from_str("The given output directory \"");
                text.append(dir.as_str());
                text.append("\" cannot be found.");
                text
            },
            ResizerError::InvalidExtension => String::from_str(
                "You need to specify a valid extension, either jpeg, png or no extension.",
            ),
            ResizerError::PathCheckFailed(reason) => {
                let mut text: String = String::from_str("Error checking path: ");
                text.append(reason.as_str());
                text
            },
            ResizerError::Cancelled(path) => {
                let mut text: String = String::from_str("\"");
                text.append(path.as_str());
                text.append("\" already exists. Operation cancelled!");
                text
            },
            ResizerError::EncodeFailure(reason) => {
                let mut text: String = String::from_str("Failed to save image: ");
                text.append(reason.as_str());
                text
            },
            ResizerError::EmptyBuffer => String::from_str(
                "Failed to save image: Empty image buffer",
            ),
            ResizerError::ExtensionMismatch { expected, found } => {
                let mut text: String = String::from_str(
                    "Output file extension is not compatible with the specified format. Expected: ",
                );
                text.append(expected.name());
                text.append(", got: ");
                text.append(found.name());
                text
            },
            ResizerError::MissingExtension => String::from_str(
                "Output path has no file extension",
            ),
        }
    }
}

} // verus!
