use image_resizer_rust::{
    save_image, saved_image_info, EncodeJob, ImageFormat, ImageInfo, PixelLayout, RasterBuffer,
    ResizerError,
};
use std::path::PathBuf;
use tempfile::TempDir;

fn create_mock_jpeg() -> RasterBuffer {
    let mut buffer = vec![0; 400]; // 10x10 RGBA image = 400 bytes
    buffer[0] = 0xFF;
    buffer[1] = 0xD8;
    buffer[2] = 0xFF;
    buffer[3] = 0xE0;
    buffer[6] = 0x4A;
    buffer[7] = 0x46;
    buffer[8] = 0x49;
    buffer[9] = 0x46;
    buffer[10] = 0x00;
    RasterBuffer::new(10, 10, buffer).expect("Failed to create mock JPEG")
}

/// Encodes and writes what the library made ready, as a caller of the
/// library does.
fn write(job: &EncodeJob) -> Result<(), String> {
    let format = match job.format {
        ImageFormat::Jpeg => image::ImageFormat::Jpeg,
        ImageFormat::Png => image::ImageFormat::Png,
    };
    let written = match job.layout {
        PixelLayout::Rgb8 => image::RgbImage::from_raw(job.width, job.height, job.pixels.clone())
            .expect("three bytes for each pixel")
            .save_with_format(&job.path, format),
        PixelLayout::Rgba8 => image::RgbaImage::from_raw(job.width, job.height, job.pixels.clone())
            .expect("four bytes for each pixel")
            .save_with_format(&job.path, format),
    };
    written.map_err(|e| e.to_string())
}

fn save(image: RasterBuffer, output_path: &PathBuf, format: ImageFormat) -> Result<ImageInfo, ResizerError> {
    let job = save_image(image, &output_path.to_string_lossy(), format)?;
    let written = write(&job);
    saved_image_info(job.width, job.height, job.format, &job.path, written)
}

#[test]
fn test_save_image_jpg() {
    let dir = TempDir::new().expect("Failed to create a temp dir");
    let image = create_mock_jpeg();
    let width = image.width();
    let height = image.height();
    let output_path = dir.path().join("output.jpg");
    let format = ImageFormat::Jpeg;

    let result = save(image, &output_path, format).unwrap();

    assert_eq!(PathBuf::from(&result.path), output_path);
    assert_eq!(result.format, ImageFormat::Jpeg);
    assert_eq!(result.width, width);
    assert_eq!(result.height, height);
    assert!(output_path.is_file());
}

#[test]
fn test_save_image_different_format() {
    let dir = TempDir::new().expect("Failed to create a temp dir");
    let image = create_mock_jpeg();
    let output_path = dir.path().join("output.jpg");
    let format = ImageFormat::Png;

    let result = save(image, &output_path, format);

    assert!(result.is_err());
    if let Err(e) = result {
        assert!(e
            .message()
            .contains("Output file extension is not compatible with the specified format"));
        assert!(e.message().contains("Expected: Png, got: Jpeg"));
    } else {
        panic!("Expected an error, but got Ok");
    }
    assert!(!output_path.exists());
}

#[test]
fn test_save_image_failure() {
    let image = create_mock_jpeg();
    let non_existent_dir = PathBuf::from("/non/existent/directory");
    let output_path = non_existent_dir.join("output.jpg");
    let format = ImageFormat::Jpeg;

    let result = save(image, &output_path, format);

    assert!(result.is_err());
    if let Err(e) = result {
        assert!(e.message().contains("Failed to save image"));
    } else {
        panic!("Expected an error, but got Ok");
    }
}

#[test]
fn test_save_image_empty_buffer() {
    let dir = TempDir::new().expect("Failed to create a temp dir");
    let empty_image = RasterBuffer::new(0, 0, Vec::new()).unwrap();
    let output_path = dir.path().join("empty_output.jpg");
    let format = ImageFormat::Jpeg;

    let result = save(empty_image, &output_path, format);

    assert!(result.is_err());
    if let Err(e) = result {
        assert!(e
            .message()
            .contains("Failed to save image: Empty image buffer"));
    } else {
        panic!("Expected an error, but got Ok");
    }
    assert!(!output_path.exists());
}

#[test]
fn an_image_without_pixels_is_empty_buffer_whatever_the_path() {
    for (width, height) in [(0, 0), (0, 7), (7, 0)] {
        for path in ["out.jpg", "out.png", "out", "out.gif", ""] {
            for format in [ImageFormat::Jpeg, ImageFormat::Png] {
                let image = RasterBuffer::new(width, height, Vec::new()).unwrap();
                assert_eq!(save_image(image, path, format), Err(ResizerError::EmptyBuffer));
            }
        }
    }
}

#[test]
fn a_path_without_extension_is_missing_extension() {
    assert_eq!(
        save_image(create_mock_jpeg(), "/tmp/output", ImageFormat::Jpeg),
        Err(ResizerError::MissingExtension)
    );
    assert_eq!(
        save_image(create_mock_jpeg(), "/tmp/.hidden", ImageFormat::Png),
        Err(ResizerError::MissingExtension)
    );
}

#[test]
fn an_extension_of_no_known_format_is_unsupported() {
    assert_eq!(
        save_image(create_mock_jpeg(), "/tmp/output.gif", ImageFormat::Jpeg),
        Err(ResizerError::UnsupportedFormat("gif".to_string()))
    );
}

#[test]
fn an_extension_of_another_format_is_a_mismatch() {
    assert_eq!(
        save_image(create_mock_jpeg(), "/tmp/output.jpg", ImageFormat::Png),
        Err(ResizerError::ExtensionMismatch { expected: ImageFormat::Png, found: ImageFormat::Jpeg })
    );
    assert_eq!(
        save_image(create_mock_jpeg(), "/tmp/output.PNG", ImageFormat::Jpeg),
        Err(ResizerError::ExtensionMismatch { expected: ImageFormat::Jpeg, found: ImageFormat::Png })
    );
}

#[test]
fn jpeg_is_encoded_without_alpha() {
    let pixels = vec![1, 2, 3, 255, 4, 5, 6, 128, 7, 8, 9, 0, 10, 11, 12, 77];
    let image = RasterBuffer::new(2, 2, pixels).unwrap();
    let job = save_image(image, "a/out.JPEG", ImageFormat::Jpeg).unwrap();
    assert_eq!(
        job,
        EncodeJob {
            width: 2,
            height: 2,
            layout: PixelLayout::Rgb8,
            pixels: vec![1, 2, 3, 4, 5, 6, 7, 8, 9, 10, 11, 12],
            format: ImageFormat::Jpeg,
            path: "a/out.JPEG".to_string(),
        }
    );
}

#[test]
fn png_is_encoded_with_alpha() {
    let pixels = vec![1, 2, 3, 255, 4, 5, 6, 128];
    let image = RasterBuffer::new(1, 2, pixels.clone()).unwrap();
    let job = save_image(image, "out.png", ImageFormat::Png).unwrap();
    assert_eq!(
        job,
        EncodeJob {
            width: 1,
            height: 2,
            layout: PixelLayout::Rgba8,
            pixels,
            format: ImageFormat::Png,
            path: "out.png".to_string(),
        }
    );
}

#[test]
fn a_written_image_is_reported() {
    assert_eq!(
        saved_image_info(3, 4, ImageFormat::Png, "/a/out.png", Ok(())),
        Ok(ImageInfo { width: 3, height: 4, format: ImageFormat::Png, path: "/a/out.png".to_string() })
    );
}

#[test]
fn a_failed_write_is_encode_failure() {
    let result = saved_image_info(3, 4, ImageFormat::Png, "/a/out.png", Err("disk full".to_string()));
    assert_eq!(result, Err(ResizerError::EncodeFailure("disk full".to_string())));
    assert_eq!(result.unwrap_err().message(), "Failed to save image: disk full");
}

#[test]
fn a_saved_png_reads_back_as_it_was() {
    let dir = TempDir::new().expect("Failed to create a temp dir");
    let output_path = dir.path().join("pixels.png");
    let pixels = vec![1, 2, 3, 255, 4, 5, 6, 128, 7, 8, 9, 0, 10, 11, 12, 77];
    let image = RasterBuffer::new(2, 2, pixels.clone()).unwrap();
    let info = save(image, &output_path, ImageFormat::Png).unwrap();
    assert_eq!((info.width, info.height), (2, 2));
    let read = image::open(&output_path).unwrap().into_rgba8();
    assert_eq!(read.dimensions(), (2, 2));
    assert_eq!(read.into_raw(), pixels);
}

#[test]
fn messages_of_the_failures() {
    let cases = [
        (ResizerError::MissingDimension, "At least one of width or height must be specified"),
        (ResizerError::InvalidSource, "The source image has no width or no height"),
        (ResizerError::ResizeFailure, "Failed to resize image"),
        (ResizerError::UnsupportedFormat("Gif".to_string()), "Unsupported image format Gif"),
        (
            ResizerError::DirectoryNotFound("/a/b".to_string()),
            "The given output directory \"/a/b\" cannot be found.",
        ),
        (
            ResizerError::InvalidExtension,
            "You need to specify a valid extension, either jpeg, png or no extension.",
        ),
        (ResizerError::PathCheckFailed("denied".to_string()), "Error checking path: denied"),
        (
            ResizerError::Cancelled("/a/out.png".to_string()),
            "\"/a/out.png\" already exists. Operation cancelled!",
        ),
        (ResizerError::EncodeFailure("disk full".to_string()), "Failed to save image: disk full"),
        (ResizerError::EmptyBuffer, "Failed to save image: Empty image buffer"),
        (
            ResizerError::ExtensionMismatch { expected: ImageFormat::Png, found: ImageFormat::Jpeg },
            "Output file extension is not compatible with the specified format. Expected: Png, got: Jpeg",
        ),
        (ResizerError::MissingExtension, "Output path has no file extension"),
    ];
    for (error, text) in cases {
        assert_eq!(error.message(), text);
    }
}
