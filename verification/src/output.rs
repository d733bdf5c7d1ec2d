//! Where the resized image is written: the output path, from the input
//! path, the path that the user asked for, and the format.

use vstd::prelude::*;
use vstd::string::*;
use crate::error::{Failure, ResizerError};
use crate::format::{
    chosen_extension, chosen_format, determine_extension, format_named,
    lemma_chosen_extension_names_format, resolve_format, slice_text, sniffed_format,
    DetectedFormat, ImageFormat,
};
use crate::path::{
    append_extension, body_start, extension, extension_of, file_stem, file_stem_of,
    has_file_name, is_absolute, is_absolute_path, join, join_paths, name_start, parent,
    parent_end, parent_of, replace_extension, with_extension, with_suffix,
};
use crate::path_laws::{
    holds, is_open_prefix, join_prefix, lemma_extension_of_tail, lemma_file_name_is_plain,
    lemma_join_is_prefixed, lemma_path_indices, lemma_trimmed_end_bounds,
    lemma_with_extension_sets_extension,
};
use crate::raster::RasterBuffer;
use crate::text::same_text;

verus! {

/// `s`, or `default` where there is none.
pub open spec fn text_or(s: Option<Seq<char>>, default: Seq<char>) -> Seq<char> {
    match s {
        Some(t) => t,
        None => default,
    }
}

/// Whether an output path may have the extension `ext`.
pub open spec fn extension_allowed(ext: Seq<char>) -> bool {
    ext == "jpeg"@ || ext == "jpg"@ || ext == "png"@ || ext.len() == 0
}

/// Why the output path that the user asked for is refused, if it is: its
/// directory is named and does not exist, or its extension is not allowed.
pub open spec fn output_refusal(output: Seq<char>, directory_exists: bool) -> Option<Failure> {
    if parent(output).len() > 0 && !directory_exists {
        Some(Failure::DirectoryNotFound(parent(output)))
    } else if !extension_allowed(text_or(extension(output), Seq::empty())) {
        Some(Failure::InvalidExtension)
    } else {
        None
    }
}

/// The output path with the extension `ext`.
///
/// Where the user asked for none, it stands beside the input, under the
/// input's name with `_resized` behind its stem. Else it is the path that the
/// user asked for, below the directory of the input unless it is absolute.
pub open spec fn built_output(input: Seq<char>, output: Option<Seq<char>>, ext: Seq<char>) -> Seq<
    char,
> {
    match output {
        None => join(
            parent(input),
            with_suffix(text_or(file_stem(input), "output"@) + "_resized"@, ext),
        ),
        Some(out) => {
            let full = with_suffix(join(parent(out), text_or(file_stem(out), "output"@)), ext);
            if is_absolute(full) {
                full
            } else {
                join(parent(input), full)
            }
        },
    }
}

/// The extension of the output path while the format is not known: that of
/// the path that the user asked for, else that of the input, else `jpeg`.
pub open spec fn inherited_extension(input: Seq<char>, output: Option<Seq<char>>) -> Seq<char> {
    let own = match output {
        Some(out) => text_or(extension(out), Seq::empty()),
        None => Seq::empty(),
    };
    if own.len() > 0 {
        own
    } else {
        text_or(extension(input), "jpeg"@)
    }
}

/// What `validate_output_path` returns.
pub open spec fn validated_output(output: Seq<char>, directory_exists: bool) -> Result<
    Seq<char>,
    Failure,
> {
    match output_refusal(output, directory_exists) {
        Some(failure) => Err(failure),
        None => Ok(
            with_suffix(
                join(parent(output), text_or(file_stem(output), "output"@)),
                text_or(extension(output), Seq::empty()),
            ),
        ),
    }
}

/// What `determine_output_path` returns.
pub open spec fn output_path(
    input: Seq<char>,
    output: Option<Seq<char>>,
    directory_exists: bool,
) -> Result<Seq<char>, Failure> {
    let refusal = match output {
        Some(out) => output_refusal(out, directory_exists),
        None => None,
    };
    match refusal {
        Some(failure) => Err(failure),
        None => Ok(built_output(input, output, inherited_extension(input, output))),
    }
}

/// The extension of the output path for a format: that of the path that the
/// user asked for, or of the input where the user asked for none, where that
/// is `jpg` or `jpeg` and the format is JPEG; else the format's default.
pub open spec fn resolved_extension(
    input: Seq<char>,
    output: Option<Seq<char>>,
    format: ImageFormat,
) -> Seq<char> {
    match output {
        Some(out) => chosen_extension(out, format),
        None => chosen_extension(input, format),
    }
}

/// An output path with the format of the file and the extension that the
/// path ends in.
#[derive(Debug, PartialEq, Eq)]
pub struct OutputSpec {
    pub path: String,
    pub format: ImageFormat,
    pub extension: String,
}

/// What an `OutputSpec` holds.
pub struct OutputPlan {
    pub path: Seq<char>,
    pub format: ImageFormat,
    pub extension: Seq<char>,
}

impl View for OutputSpec {
    type V = OutputPlan;

    open spec fn view(&self) -> OutputPlan {
        OutputPlan { path: self.path@, format: self.format, extension: self.extension@ }
    }
}

/// What `resolve_path` returns.
pub open spec fn resolved_path(
    input: Seq<char>,
    output: Option<Seq<char>>,
    format: ImageFormat,
    directory_exists: bool,
) -> Result<OutputPlan, Failure> {
    let refusal = match output {
        Some(out) => output_refusal(out, directory_exists),
        None => None,
    };
    match refusal {
        Some(failure) => Err(failure),
        None => Ok(
            OutputPlan {
                path: built_output(input, output, resolved_extension(input, output, format)),
                format,
                extension: resolved_extension(input, output, format),
            },
        ),
    }
}

fn stem_or_output(path: &str) -> (stem: String)
    ensures
        stem@ == text_or(file_stem(path@), "output"@),
{
    match file_stem_of(path) {
        Some(stem) => stem,
        None => String::from_str("output"),
    }
}

fn extension_or(path: &str, default: &str) -> (ext: String)
    ensures
        ext@ == text_or(extension(path@), default@),
{
    match extension_of(path) {
        Some(ext) => ext,
        None => String::from_str(default),
    }
}

fn extension_or_none(path: &str) -> (ext: String)
    ensures
        ext@ == text_or(extension(path@), Seq::empty()),
{
    match extension_of(path) {
        Some(ext) => ext,
        None => String::new(),
    }
}

fn refuse_output(output: &str, directory_exists: bool) -> (checked: Result<(), ResizerError>)
    ensures
        match checked {
            Ok(_) => output_refusal(output@, directory_exists) is None,
            Err(e) => output_refusal(output@, directory_exists) == Some(e@),
        },
{
    let directory: String = parent_of(output);
    if directory.as_str().unicode_len() > 0 && !directory_exists {
        return Err(ResizerError::DirectoryNotFound(directory));
    }
    let ext: String = extension_or_none(output);
    if same_text(ext.as_str(), "jpeg") || same_text(ext.as_str(), "jpg") || same_text(
        ext.as_str(),
        "png",
    ) || ext.as_str().unicode_len() == 0 {
        Ok(())
    } else {
        Err(ResizerError::InvalidExtension)
    }
}

fn build_output(input: &str, output: Option<&str>, ext: &str) -> (path: String)
    ensures
        path@ == built_output(input@, slice_text(output), ext@),
{
    let directory: String = parent_of(input);
    match output {
        None => {
            let mut name: String = stem_or_output(input);
            name.append("_resized");
            let name: String = append_extension(name.as_str(), ext);
            join_paths(directory.as_str(), name.as_str())
        },
        Some(out) => {
            let own_directory: String = parent_of(out);
            let stem: String = stem_or_output(out);
            let bare: String = join_paths(own_directory.as_str(), stem.as_str());
            let full: String = append_extension(bare.as_str(), ext);
            if is_absolute_path(full.as_str()) {
                full
            } else {
                join_paths(directory.as_str(), full.as_str())
            }
        },
    }
}

/// Checks the output path that the user asked for, and gives it back in its
/// plain form: directory, stem and extension.
///
/// `directory_exists` tells whether the directory of `path`, as `parent_of`
/// gives it, exists; it is not looked at where that directory is empty.
pub fn validate_output_path(path: &str, directory_exists: bool) -> (valid: Result<
    String,
    ResizerError,
>)
    ensures
        match valid {
            Ok(p) => validated_output(path@, directory_exists) == Ok::<Seq<char>, Failure>(p@),
            Err(e) => validated_output(path@, directory_exists) == Err::<Seq<char>, Failure>(e@),
        },
{
    refuse_output(path, directory_exists)?;
    let directory: String = parent_of(path);
    let stem: String = stem_or_output(path);
    let bare: String = join_paths(directory.as_str(), stem.as_str());
    let ext: String = extension_or_none(path);
    Ok(append_extension(bare.as_str(), ext.as_str()))
}

/// Picks the output path while the format is not known.
///
/// `output_directory_exists` tells whether the directory of `output`, as
/// `parent_of` gives it, exists; it is not looked at where there is no
/// `output` or that directory is empty.
pub fn determine_output_path(input: &str, output: Option<&str>, output_directory_exists: bool) -> (path:
    Result<String, ResizerError>)
    ensures
        match path {
            Ok(p) => output_path(input@, slice_text(output), output_directory_exists) == Ok::<
                Seq<char>,
                Failure,
            >(p@),
            Err(e) => output_path(input@, slice_text(output), output_directory_exists) == Err::<
                Seq<char>,
                Failure,
            >(e@),
        },
{
    let mut own: String = String::new();
    if let Some(out) = output {
        refuse_output(out, output_directory_exists)?;
        own = extension_or_none(out);
    }
    let ext: String = if own.as_str().unicode_len() > 0 {
        own
    } else {
        extension_or(input, "jpeg")
    };
    Ok(build_output(input, output, ext.as_str()))
}

/// Picks the output path for a format.
///
/// `output_directory_exists` tells whether the directory of `user_output`,
/// as `parent_of` gives it, exists; it is not looked at where there is no
/// `user_output` or that directory is empty.
pub fn resolve_path(
    input: &str,
    user_output: Option<&str>,
    format: ImageFormat,
    output_directory_exists: bool,
) -> (resolved: Result<OutputSpec, ResizerError>)
    ensures
        match resolved {
            Ok(s) => {
                &&& resolved_path(
                    input@,
                    slice_text(user_output),
                    format,
                    output_directory_exists,
                ) == Ok::<OutputPlan, Failure>(s@)
                &&& s.format == format
                &&& extension(s.path@) == Some(s.extension@)
                &&& format_named(s.extension@) == Some(format)
            },
            Err(e) => resolved_path(
                input@,
                slice_text(user_output),
                format,
                output_directory_exists,
            ) == Err::<OutputPlan, Failure>(e@),
        },
{
    let extension: String = match user_output {
        Some(out) => {
            refuse_output(out, output_directory_exists)?;
            determine_extension(out, format)
        },
        None => determine_extension(input, format),
    };
    let path: String = build_output(input, user_output, extension.as_str());
    proof {
        lemma_resolved_path_is_consistent(
            input@,
            slice_text(user_output),
            format,
            output_directory_exists,
        );
    }
    Ok(OutputSpec { path, format, extension })
}

/// What `determine_save_format_and_path` returns, for what was found in the
/// content.
pub open spec fn save_format_and_path(
    sniffed: Option<DetectedFormat>,
    output_path: Seq<char>,
    output_format: Option<Seq<char>>,
) -> Result<(ImageFormat, Seq<char>), Failure> {
    match chosen_format(output_format, Some(output_path), sniffed) {
        Ok(format) => Ok(
            (format, with_extension(output_path, chosen_extension(output_path, format))),
        ),
        Err(failure) => Err(failure),
    }
}

/// Picks the format to save `image` in, and gives `output_path` the
/// extension of that format.
///
/// The format is the one that `output_format` names, else the one that the
/// extension of `output_path` stands for, else the one that the bytes of the
/// pixels give away, else JPEG.
pub fn determine_save_format_and_path(
    image: &RasterBuffer,
    output_path: &str,
    output_format: Option<&str>,
) -> (saved: Result<(ImageFormat, String), ResizerError>)
    ensures
        match saved {
            Ok((format, path)) => {
                &&& save_format_and_path(
                    sniffed_format(image@.pixels),
                    output_path@,
                    slice_text(output_format),
                ) == Ok::<(ImageFormat, Seq<char>), Failure>((format, path@))
                &&& has_file_name(output_path@) ==> (extension(path@) matches Some(ext)
                    && format_named(ext) == Some(format))
            },
            Err(e) => save_format_and_path(
                sniffed_format(image@.pixels),
                output_path@,
                slice_text(output_format),
            ) == Err::<(ImageFormat, Seq<char>), Failure>(e@),
        },
{
    let format: ImageFormat = resolve_format(
        output_format,
        Some(output_path),
        Some(image.pixels().as_slice()),
    )?;
    let extension: String = determine_extension(output_path, format);
    proof {
        if has_file_name(output_path@) {
            lemma_save_path_is_consistent(
                sniffed_format(image@.pixels),
                output_path@,
                slice_text(output_format),
            );
        }
    }
    Ok((format, replace_extension(output_path, extension.as_str())))
}


/// Where the user asked for no output path, the path is found from the
/// input and the format alone: there is always one, and it does not depend
/// on what the file system holds.
pub proof fn lemma_default_path_is_fixed(
    input: Seq<char>,
    format: ImageFormat,
    directory_exists: bool,
    other_directory_exists: bool,
)
    ensures
        resolved_path(input, None, format, directory_exists) is Ok,
        resolved_path(input, None, format, directory_exists) == resolved_path(
            input,
            None,
            format,
            other_directory_exists,
        ),
        output_path(input, None, directory_exists) is Ok,
        output_path(input, None, directory_exists) == output_path(
            input,
            None,
            other_directory_exists,
        ),
{
}


/// The stem that an output path is built on is not empty and holds no `/`.
pub proof fn lemma_stem_or_output_is_plain(path: Seq<char>)
    ensures
        text_or(file_stem(path), "output"@).len() > 0,
        !holds(text_or(file_stem(path), "output"@), '/'),
{
    if has_file_name(path) {
        lemma_file_name_is_plain(path);
    } else {
        reveal_strlit("output");
    }
}

/// An output path that is built with an extension has that extension.
pub proof fn lemma_built_output_has_extension(
    input: Seq<char>,
    output: Option<Seq<char>>,
    ext: Seq<char>,
)
    requires
        ext.len() > 0,
        !holds(ext, '/'),
        !holds(ext, '.'),
    ensures
        extension(built_output(input, output, ext)) == Some(ext),
        has_file_name(built_output(input, output, ext)),
{
    let directory = join_prefix(parent(input));
    match output {
        None => {
            let stem = text_or(file_stem(input), "output"@);
            let name = stem + "_resized"@;
            lemma_stem_or_output_is_plain(input);
            reveal_strlit("_resized");
            assert(!holds(name, '/')) by {
                if holds(name, '/') {
                    let i = choose|i: int| 0 <= i < name.len() && name[i] == '/';
                    if i < stem.len() {
                        assert(stem[i] == '/');
                        assert(holds(stem, '/'));
                    } else {
                        assert(name[i] == "_resized"@[i - stem.len()]);
                    }
                }
            }
            let full = name + seq!['.'] + ext;
            assert(full[0] == stem[0]);
            assert(stem[0] != '/') by {
                if stem[0] == '/' {
                    assert(holds(stem, '/'));
                }
            }
            lemma_join_is_prefixed(parent(input), full);
            lemma_extension_of_tail(directory, name, ext);
        },
        Some(out) => {
            let stem = text_or(file_stem(out), "output"@);
            lemma_stem_or_output_is_plain(out);
            assert(stem[0] != '/') by {
                if stem[0] == '/' {
                    assert(holds(stem, '/'));
                }
            }
            let own = join_prefix(parent(out));
            lemma_join_is_prefixed(parent(out), stem);
            let full = join(parent(out), stem) + seq!['.'] + ext;
            assert(full =~= own + (stem + seq!['.'] + ext));
            lemma_extension_of_tail(own, stem, ext);
            if !is_absolute(full) {
                lemma_join_is_prefixed(parent(input), full);
                assert(join(parent(input), full) =~= (directory + own) + (stem + seq!['.']
                    + ext));
                assert(is_open_prefix(directory + own)) by {
                    if own.len() > 0 {
                        assert((directory + own).last() == own.last());
                    } else {
                        assert(directory + own =~= directory);
                    }
                }
                lemma_extension_of_tail(directory + own, stem, ext);
            }
        },
    }
}

/// The extension of a resolved output path is the one that is reported with
/// it, and stands for the format that is reported with it.
pub proof fn lemma_resolved_path_is_consistent(
    input: Seq<char>,
    output: Option<Seq<char>>,
    format: ImageFormat,
    directory_exists: bool,
)
    requires
        resolved_path(input, output, format, directory_exists) is Ok,
    ensures
        ({
            let plan = resolved_path(input, output, format, directory_exists)->Ok_0;
            &&& plan.format == format
            &&& extension(plan.path) == Some(plan.extension)
            &&& format_named(plan.extension) == Some(format)
        }),
{
    let ext = resolved_extension(input, output, format);
    match output {
        Some(out) => lemma_chosen_extension_names_format(out, format),
        None => lemma_chosen_extension_names_format(input, format),
    }
    lemma_built_output_has_extension(input, output, ext);
}

/// Where the path to save at has a file name, the path that is picked ends
/// in an extension that stands for the format that is picked.
pub proof fn lemma_save_path_is_consistent(
    sniffed: Option<DetectedFormat>,
    output_path: Seq<char>,
    output_format: Option<Seq<char>>,
)
    requires
        has_file_name(output_path),
        save_format_and_path(sniffed, output_path, output_format) is Ok,
    ensures
        ({
            let (format, path) = save_format_and_path(sniffed, output_path, output_format)->Ok_0;
            &&& extension(path) == Some(chosen_extension(output_path, format))
            &&& format_named(chosen_extension(output_path, format)) == Some(format)
            &&& file_stem(path) == file_stem(output_path)
        }),
{
    let (format, path) = save_format_and_path(sniffed, output_path, output_format)->Ok_0;
    lemma_chosen_extension_names_format(output_path, format);
    lemma_with_extension_sets_extension(output_path, chosen_extension(output_path, format));
}


/// What is built from the path that the user asked for starts as that path
/// starts: at the root, or not.
pub proof fn lemma_output_keeps_its_start(out: Seq<char>, ext: Seq<char>)
    requires
        is_absolute(out) ==> has_file_name(out),
    ensures
        is_absolute(
            with_suffix(join(parent(out), text_or(file_stem(out), "output"@)), ext),
        ) == is_absolute(out),
{
    let stem = text_or(file_stem(out), "output"@);
    lemma_stem_or_output_is_plain(out);
    assert(stem[0] != '/') by {
        if stem[0] == '/' {
            assert(holds(stem, '/'));
        }
    }
    lemma_join_is_prefixed(parent(out), stem);
    lemma_path_indices(out);
    let bare = join(parent(out), stem);
    if is_absolute(out) {
        let a = name_start(out);
        if a > body_start(out) {
            lemma_trimmed_end_bounds(out, a - 1);
        }
        assert(parent_end(out) >= 1);
        assert(parent(out)[0] == out[0]);
        assert(bare[0] == parent(out)[0]);
    } else if parent(out).len() > 0 {
        assert(parent(out)[0] == out[0]);
        assert(bare[0] == parent(out)[0]);
    } else {
        assert(bare =~= stem);
    }
    assert(with_suffix(bare, ext)[0] == bare[0]);
}

/// An absolute path that the user asked for, with a file name, decides
/// alone: the resolved path is absolute and does not depend on the input.
pub proof fn lemma_absolute_output_stands_alone(
    input: Seq<char>,
    other_input: Seq<char>,
    out: Seq<char>,
    format: ImageFormat,
    directory_exists: bool,
)
    requires
        is_absolute(out),
        has_file_name(out),
    ensures
        resolved_path(input, Some(out), format, directory_exists) == resolved_path(
            other_input,
            Some(out),
            format,
            directory_exists,
        ),
        resolved_path(input, Some(out), format, directory_exists) matches Ok(plan) ==> is_absolute(
            plan.path,
        ),
        extension(out) is Some && extension(out)->0.len() > 0 ==> output_path(
            input,
            Some(out),
            directory_exists,
        ) == output_path(other_input, Some(out), directory_exists),
{
    lemma_output_keeps_its_start(out, resolved_extension(input, Some(out), format));
    lemma_output_keeps_its_start(out, inherited_extension(input, Some(out)));
}

/// A relative path that the user asked for is put below the directory of
/// the input.
pub proof fn lemma_relative_output_stands_beside_input(
    input: Seq<char>,
    out: Seq<char>,
    ext: Seq<char>,
)
    requires
        !is_absolute(out),
    ensures
        built_output(input, Some(out), ext) == join(
            parent(input),
            with_suffix(join(parent(out), text_or(file_stem(out), "output"@)), ext),
        ),
{
    lemma_output_keeps_its_start(out, ext);
}

} // verus!
