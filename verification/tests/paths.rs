use image_resizer_rust::path::{
    extension_of, file_stem_of, is_absolute_path, join_paths, parent_of, replace_extension,
};
use std::path::{Path, PathBuf};

const SAMPLES: [&str; 44] = [
    "", "/", "//", ".", "..", "./", "../", "/.", "/..", "a", "a/", "a//", "a/.", "a/./", "a/..",
    "/a", "/a/b", "/a/b/", "a/b", "a//b", "a/./b", "./a", "./a/b", "../a", ".a", ".a.b", "a.b",
    "a.b.c", "a.", "a..", "...", "..a", "/path/to/input.jpg", "photo.tar.gz", "/tmp/out.png",
    "dir.d/file", "dir.d/file.png/", "/a/b/.hidden", "~/Downloads/shell_output.jpeg", "a/b/.",
    "./.", "/./a", ".//a", "a b/c d.e f",
];

#[test]
fn parent_agrees_with_the_standard_library() {
    for s in SAMPLES {
        let expected = Path::new(s).parent().unwrap_or(Path::new("")).to_string_lossy().to_string();
        assert_eq!(parent_of(s), expected, "parent of {:?}", s);
    }
}

#[test]
fn file_stem_agrees_with_the_standard_library() {
    for s in SAMPLES {
        assert_eq!(file_stem_of(s), Path::new(s).file_stem().map(|t| t.to_string_lossy().to_string()), "stem of {:?}", s);
    }
}

#[test]
fn extension_agrees_with_the_standard_library() {
    for s in SAMPLES {
        assert_eq!(extension_of(s), Path::new(s).extension().map(|t| t.to_string_lossy().to_string()), "extension of {:?}", s);
    }
}

#[test]
fn is_absolute_agrees_with_the_standard_library() {
    for s in SAMPLES {
        assert_eq!(is_absolute_path(s), Path::new(s).is_absolute(), "{:?}", s);
    }
}

#[test]
fn join_agrees_with_the_standard_library() {
    for base in SAMPLES {
        for rel in SAMPLES {
            let expected = Path::new(base).join(rel).to_string_lossy().to_string();
            assert_eq!(join_paths(base, rel), expected, "{:?} joined with {:?}", base, rel);
        }
    }
}

#[test]
fn replace_extension_agrees_with_the_standard_library() {
    // For a file name such as "..a", whose stem is ".", the standard library
    // cuts the path back to ".." and then finds no file name in it.
    for s in SAMPLES.into_iter().filter(|s| *s != "..a") {
        for ext in ["jpg", "jpeg", "png", ""] {
            let expected = Path::new(s).with_extension(ext).to_string_lossy().to_string();
            assert_eq!(replace_extension(s, ext), expected, "{:?} with extension {:?}", s, ext);
        }
    }
}

#[test]
fn replace_extension_keeps_a_stem_that_is_a_dot() {
    assert_eq!(file_stem_of("..a"), Some(".".to_string()));
    assert_eq!(replace_extension("..a", "jpg"), "..jpg");
}

/// All the paths of up to `length` characters out of `/`, `.`, `a` and `b`.
fn short_paths(length: usize) -> Vec<String> {
    let mut all = vec![String::new()];
    let mut last = vec![String::new()];
    for _ in 0..length {
        let mut next = Vec::new();
        for path in &last {
            for c in ['/', '.', 'a', 'b'] {
                let mut longer = path.clone();
                longer.push(c);
                next.push(longer);
            }
        }
        all.extend(next.iter().cloned());
        last = next;
    }
    all
}

#[test]
fn short_paths_are_cut_as_the_standard_library_cuts_them() {
    for s in short_paths(7) {
        let path = Path::new(&s);
        let parent = path.parent().unwrap_or(Path::new("")).to_string_lossy().to_string();
        assert_eq!(parent_of(&s), parent, "parent of {:?}", s);
        let stem = path.file_stem().map(|t| t.to_string_lossy().to_string());
        assert_eq!(file_stem_of(&s), stem, "stem of {:?}", s);
        let extension = path.extension().map(|t| t.to_string_lossy().to_string());
        assert_eq!(extension_of(&s), extension, "extension of {:?}", s);
        assert_eq!(is_absolute_path(&s), path.is_absolute(), "{:?}", s);
    }
}

#[test]
fn short_paths_get_their_extension_as_the_standard_library_sets_it() {
    for s in short_paths(6) {
        for ext in ["png", ""] {
            let mut expected = PathBuf::from(&s);
            expected.set_extension(ext);
            assert_eq!(
                replace_extension(&s, ext),
                expected.to_string_lossy().to_string(),
                "{:?} with extension {:?}",
                s,
                ext
            );
        }
    }
}

#[test]
fn short_paths_are_joined_as_the_standard_library_joins_them() {
    let paths = short_paths(3);
    for base in &paths {
        for rel in &paths {
            let expected = Path::new(base).join(rel).to_string_lossy().to_string();
            assert_eq!(join_paths(base, rel), expected, "{:?} joined with {:?}", base, rel);
        }
    }
}

#[test]
fn paths_of_other_characters() {
    assert_eq!(parent_of("/f\u{fc}r/b\u{e4}r.png"), "/f\u{fc}r");
    assert_eq!(file_stem_of("/f\u{fc}r/b\u{e4}r.png"), Some("b\u{e4}r".to_string()));
    assert_eq!(extension_of("/f\u{fc}r/b\u{e4}r.\u{3c0}ng"), Some("\u{3c0}ng".to_string()));
    assert_eq!(replace_extension("\u{1f600}.jpeg", "png"), "\u{1f600}.png");
    assert_eq!(join_paths("\u{1f600}", "a"), "\u{1f600}/a");
}
