use image_resizer_rust::path::parent_of;
use image_resizer_rust::{
    determine_output_path, determine_save_format_and_path, resolve_format, resolve_path,
    validate_output_path, ImageFormat, OutputSpec, RasterBuffer, ResizerError,
};
use std::path::{Path, PathBuf};
use tempfile::TempDir;

fn create_temp_dir() -> TempDir {
    TempDir::new().expect("Failed to create temp directory")
}

/// Looks for the directory of an output path, as a caller of the library does.
fn directory_exists(output: &str) -> bool {
    let directory = parent_of(output);
    directory.is_empty() || Path::new(&directory).is_dir()
}

fn output_path(input: &str, output: Option<&str>) -> Result<PathBuf, ResizerError> {
    let exists = output.map(directory_exists).unwrap_or(false);
    determine_output_path(input, output, exists).map(PathBuf::from)
}

fn validated(path: &str) -> Result<String, ResizerError> {
    validate_output_path(path, directory_exists(path))
}

fn resolved(input: &str, output: Option<&str>, format: ImageFormat) -> Result<OutputSpec, ResizerError> {
    let exists = output.map(directory_exists).unwrap_or(false);
    resolve_path(input, output, format, exists)
}

fn spec(path: &str, format: ImageFormat, extension: &str) -> Result<OutputSpec, ResizerError> {
    Ok(OutputSpec { path: path.to_string(), format, extension: extension.to_string() })
}

#[test]
fn with_output() {
    let result = output_path("/path/to/input.jpg", Some("output.png")).unwrap();
    assert_eq!(result, Path::new("/path/to/output.png"));
}

#[test]
fn without_output() {
    let result = output_path("/path/to/input.jpg", None).unwrap();
    assert_eq!(result, Path::new("/path/to/input_resized.jpg"));
}

#[test]
fn with_absolute_output() {
    let temp_dir = create_temp_dir();
    let input = temp_dir.path().join("input.jpg");
    let output = temp_dir.path().join("output.png");

    let result =
        output_path(&input.to_string_lossy(), Some(&output.to_string_lossy().to_string())).unwrap();
    assert_eq!(result, output);
    assert!(result.is_absolute());
    assert_eq!(result.extension().unwrap(), "png");
    assert_ne!(result, input);
}

#[test]
fn with_current_dir() {
    let result = output_path("/path/to/input.jpg", Some("./output.png")).unwrap();
    assert_eq!(result, Path::new("/path/to/output.png"));
}

#[test]
fn relative_output_beside_a_relative_input() {
    for ext in ["jpeg", "jpg", "png"] {
        let output = format!("./output.{}", ext);
        let result = output_path("~/Downloads/shell_output.jpeg", Some(&output));
        assert!(result.is_ok());
        assert_eq!(result.unwrap(), Path::new(&format!("~/Downloads/output.{}", ext)));
    }
}

#[test]
fn valid_path() {
    let temp_dir = create_temp_dir();
    let path = temp_dir.path().join("output.jpeg");
    let result = validated(&path.to_string_lossy().to_string());
    assert!(result.is_ok());
    assert_eq!(result.unwrap(), path.to_string_lossy().to_string());
}

#[test]
fn invalid_extension() {
    let path = String::from("/tmp/output.gif");
    let result = validated(&path);
    assert!(result.is_err());
    assert_eq!(
        result.unwrap_err().message(),
        "You need to specify a valid extension, either jpeg, png or no extension."
    );
}

#[test]
fn nonexistent_directory() {
    let path = String::from("/nonexistent/directory/output.jpeg");
    let result = validated(&path);
    assert!(result.is_err());
    assert!(result.unwrap_err().message().contains("cannot be found"));
}

#[test]
fn a_missing_directory_is_named_in_the_failure() {
    assert_eq!(
        validate_output_path("/nonexistent/directory/output.jpeg", false),
        Err(ResizerError::DirectoryNotFound("/nonexistent/directory".to_string()))
    );
    assert_eq!(
        determine_output_path("/a/b/photo.jpg", Some("missing/out.png"), false),
        Err(ResizerError::DirectoryNotFound("missing".to_string()))
    );
    assert_eq!(
        resolve_path("/a/b/photo.jpg", Some("missing/out.png"), ImageFormat::Png, false),
        Err(ResizerError::DirectoryNotFound("missing".to_string()))
    );
}

#[test]
fn the_directory_is_checked_before_the_extension() {
    assert_eq!(
        validate_output_path("missing/out.gif", false),
        Err(ResizerError::DirectoryNotFound("missing".to_string()))
    );
    assert_eq!(validate_output_path("missing/out.gif", true), Err(ResizerError::InvalidExtension));
}

#[test]
fn a_path_without_directory_needs_no_directory() {
    assert_eq!(validate_output_path("out.png", false), Ok("out.png".to_string()));
    assert_eq!(validate_output_path("out", false), Ok("out".to_string()));
}

#[test]
fn validation_gives_the_plain_form_of_the_path() {
    assert_eq!(validate_output_path("dir//out.png", true), Ok("dir/out.png".to_string()));
    assert_eq!(validate_output_path("dir/out.jpg/", true), Ok("dir/out.jpg".to_string()));
    assert_eq!(validate_output_path("/out.jpeg", true), Ok("/out.jpeg".to_string()));
    assert_eq!(validate_output_path("a.b.png", true), Ok("a.b.png".to_string()));
    assert_eq!(validate_output_path("", true), Ok("output".to_string()));
    assert_eq!(validate_output_path("dir/..", true), Ok("dir/output".to_string()));
}

#[test]
fn extensions_other_than_jpeg_jpg_png_are_invalid() {
    for path in ["out.gif", "out.PNG", "out.Jpg", "out.jpeg2", "out.tar.gz", "a.png.bak"] {
        assert_eq!(validate_output_path(path, true), Err(ResizerError::InvalidExtension), "{}", path);
        assert_eq!(
            determine_output_path("/a/b/photo.jpg", Some(path), true),
            Err(ResizerError::InvalidExtension),
            "{}",
            path
        );
        assert_eq!(
            resolve_path("/a/b/photo.jpg", Some(path), ImageFormat::Jpeg, true),
            Err(ResizerError::InvalidExtension),
            "{}",
            path
        );
    }
}

#[test]
fn round_trip_naming() {
    assert_eq!(
        determine_output_path("/a/b/photo.jpg", None, false),
        Ok("/a/b/photo_resized.jpg".to_string())
    );
    assert_eq!(
        resolved("/a/b/photo.jpg", None, ImageFormat::Jpeg),
        spec("/a/b/photo_resized.jpg", ImageFormat::Jpeg, "jpg")
    );
}

#[test]
fn absolute_override() {
    let format = resolve_format(None, Some("/tmp/out.png"), None).unwrap();
    assert_eq!(format, ImageFormat::Png);
    assert_eq!(
        resolve_path("/a/b/photo.jpg", Some("/tmp/out.png"), format, true),
        spec("/tmp/out.png", ImageFormat::Png, "png")
    );
    assert_eq!(
        determine_output_path("/a/b/photo.jpg", Some("/tmp/out.png"), true),
        Ok("/tmp/out.png".to_string())
    );
}

#[test]
fn relative_to_input() {
    assert_eq!(
        resolved("/a/b/photo.jpg", Some("out.png"), ImageFormat::Png),
        spec("/a/b/out.png", ImageFormat::Png, "png")
    );
    assert_eq!(
        determine_output_path("/a/b/photo.jpg", Some("out.png"), false),
        Ok("/a/b/out.png".to_string())
    );
}

#[test]
fn invalid_extension_rejection() {
    assert_eq!(
        resolved("/a/b/photo.jpg", Some("out.gif"), ImageFormat::Jpeg),
        Err(ResizerError::InvalidExtension)
    );
    assert_eq!(
        determine_output_path("/a/b/photo.jpg", Some("out.gif"), false),
        Err(ResizerError::InvalidExtension)
    );
}

#[test]
fn the_default_path_is_the_same_each_time() {
    for format in [ImageFormat::Jpeg, ImageFormat::Png] {
        let first = resolve_path("/a/b/photo.jpg", None, format, false);
        let second = resolve_path("/a/b/photo.jpg", None, format, true);
        assert!(first.is_ok());
        assert_eq!(first, second);
    }
}

#[test]
fn the_default_path_takes_the_extension_of_the_format() {
    assert_eq!(
        resolved("/a/b/photo.png", None, ImageFormat::Jpeg),
        spec("/a/b/photo_resized.jpg", ImageFormat::Jpeg, "jpg")
    );
    assert_eq!(
        resolved("/a/b/photo.jpeg", None, ImageFormat::Jpeg),
        spec("/a/b/photo_resized.jpeg", ImageFormat::Jpeg, "jpeg")
    );
    assert_eq!(
        resolved("/a/b/photo.jpeg", None, ImageFormat::Png),
        spec("/a/b/photo_resized.png", ImageFormat::Png, "png")
    );
    assert_eq!(
        resolved("photo", None, ImageFormat::Png),
        spec("photo_resized.png", ImageFormat::Png, "png")
    );
    assert_eq!(
        resolved("a/photo.v2.webp", None, ImageFormat::Png),
        spec("a/photo.v2_resized.png", ImageFormat::Png, "png")
    );
}

#[test]
fn the_default_path_keeps_the_extension_of_the_input_while_the_format_is_unknown() {
    assert_eq!(determine_output_path("a/photo.webp", None, false), Ok("a/photo_resized.webp".to_string()));
    assert_eq!(determine_output_path("photo", None, false), Ok("photo_resized.jpeg".to_string()));
    assert_eq!(determine_output_path("", None, false), Ok("output_resized.jpeg".to_string()));
    assert_eq!(determine_output_path("/", None, false), Ok("output_resized.jpeg".to_string()));
    assert_eq!(determine_output_path("a/..", None, false), Ok("a/output_resized.jpeg".to_string()));
    assert_eq!(determine_output_path("a/photo.", None, false), Ok("a/photo_resized".to_string()));
    assert_eq!(
        determine_output_path("a/photo.v2.jpg", None, false),
        Ok("a/photo.v2_resized.jpg".to_string())
    );
}

#[test]
fn an_output_without_extension_gets_one() {
    assert_eq!(
        determine_output_path("/a/b/photo.jpg", Some("out"), false),
        Ok("/a/b/out.jpg".to_string())
    );
    assert_eq!(
        determine_output_path("/a/b/photo", Some("out"), false),
        Ok("/a/b/out.jpeg".to_string())
    );
    assert_eq!(
        resolved("/a/b/photo.jpeg", Some("out"), ImageFormat::Jpeg),
        spec("/a/b/out.jpg", ImageFormat::Jpeg, "jpg")
    );
    assert_eq!(
        resolved("/a/b/photo.jpg", Some("/tmp/out"), ImageFormat::Png),
        spec("/tmp/out.png", ImageFormat::Png, "png")
    );
}

#[test]
fn an_extension_of_another_format_is_replaced() {
    assert_eq!(
        resolved("/a/b/photo.jpg", Some("x.jpg"), ImageFormat::Png),
        spec("/a/b/x.png", ImageFormat::Png, "png")
    );
    assert_eq!(
        resolved("/a/b/photo.jpg", Some("x.png"), ImageFormat::Jpeg),
        spec("/a/b/x.jpg", ImageFormat::Jpeg, "jpg")
    );
    assert_eq!(
        resolved("/a/b/photo.jpg", Some("x.jpeg"), ImageFormat::Jpeg),
        spec("/a/b/x.jpeg", ImageFormat::Jpeg, "jpeg")
    );
}

#[test]
fn an_input_without_directory_adds_none() {
    assert_eq!(determine_output_path("photo.jpg", Some("out.png"), false), Ok("out.png".to_string()));
    assert_eq!(determine_output_path("photo.jpg", None, false), Ok("photo_resized.jpg".to_string()));
    assert_eq!(
        determine_output_path("/photo.jpg", Some("out.png"), false),
        Ok("/out.png".to_string())
    );
}

fn image_of(bytes: &[u8]) -> RasterBuffer {
    let mut pixels = vec![0; 400];
    pixels[..bytes.len()].copy_from_slice(bytes);
    RasterBuffer::new(10, 10, pixels).unwrap()
}

#[test]
fn the_save_path_gets_the_extension_of_the_named_format() {
    let image = image_of(&[]);
    assert_eq!(
        determine_save_format_and_path(&image, "output.jpg", Some("png")),
        Ok((ImageFormat::Png, "output.png".to_string()))
    );
    assert_eq!(
        determine_save_format_and_path(&image, "/a/output.png", Some("jpeg")),
        Ok((ImageFormat::Jpeg, "/a/output.jpg".to_string()))
    );
    assert_eq!(
        determine_save_format_and_path(&image, "/a/output.jpeg", Some("jpg")),
        Ok((ImageFormat::Jpeg, "/a/output.jpeg".to_string()))
    );
}

#[test]
fn the_save_format_follows_the_extension_then_the_pixels() {
    let plain = image_of(&[]);
    let png = image_of(&[0x89, 0x50, 0x4E, 0x47, 0x0D, 0x0A, 0x1A, 0x0A]);
    let gif = image_of(b"GIF89a");
    assert_eq!(
        determine_save_format_and_path(&png, "out.jpg", None),
        Ok((ImageFormat::Jpeg, "out.jpg".to_string()))
    );
    assert_eq!(
        determine_save_format_and_path(&png, "out.webp", None),
        Ok((ImageFormat::Png, "out.png".to_string()))
    );
    assert_eq!(
        determine_save_format_and_path(&plain, "out", None),
        Ok((ImageFormat::Jpeg, "out.jpg".to_string()))
    );
    assert_eq!(
        determine_save_format_and_path(&gif, "out", None),
        Err(ResizerError::UnsupportedFormat("Gif".to_string()))
    );
    assert_eq!(
        determine_save_format_and_path(&gif, "out.png", Some("bmp")),
        Err(ResizerError::UnsupportedFormat("bmp".to_string()))
    );
}
