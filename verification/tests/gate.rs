use image_resizer_rust::gate::{is_whitespace_char};
use image_resizer_rust::text::to_lower;
use image_resizer_rust::{
    check_if_path_exists, confirm_replacement, is_affirmative, GateStep, PathProbe, ResizerError,
};

#[test]
fn a_missing_path_needs_no_question() {
    assert_eq!(check_if_path_exists(PathProbe::Missing), GateStep::Proceed);
}

#[test]
fn an_existing_path_is_asked_about() {
    assert_eq!(check_if_path_exists(PathProbe::Present), GateStep::Ask);
}

#[test]
fn a_failed_probe_is_path_check_failed() {
    assert_eq!(
        check_if_path_exists(PathProbe::Failed("permission denied".to_string())),
        GateStep::Abort(ResizerError::PathCheckFailed("permission denied".to_string()))
    );
}

#[test]
fn declining_cancels() {
    assert_eq!(check_if_path_exists(PathProbe::Present), GateStep::Ask);
    assert_eq!(
        confirm_replacement("/a/b/out.png", "n"),
        Err(ResizerError::Cancelled("/a/b/out.png".to_string()))
    );
    assert_eq!(
        confirm_replacement("/a/b/out.png", "n\n"),
        Err(ResizerError::Cancelled("/a/b/out.png".to_string()))
    );
}

#[test]
fn yes_in_either_case_confirms() {
    for answer in ["y", "Y", "y\n", "Y\r\n", "  y  ", "\ty", "\u{3000}Y\u{a0}"] {
        assert_eq!(confirm_replacement("out.png", answer), Ok(()), "{:?}", answer);
    }
}

#[test]
fn anything_else_declines() {
    for answer in ["", "\n", "n", "N", "yes", "yy", "y y", "ye", "1", "y.", "\u{ff59}", "no\n"] {
        assert!(!is_affirmative(answer), "{:?}", answer);
    }
}

#[test]
fn answers_are_read_as_trimmed_lower_case_text() {
    for answer in ["y", " Y ", "yes", "", "  ", "Y\n", "n", "y\ty", "\u{2003}y\u{2028}", "ÿ"] {
        assert_eq!(is_affirmative(answer), answer.trim().to_lowercase() == "y", "{:?}", answer);
    }
}

#[test]
fn white_space_is_what_the_standard_library_calls_so() {
    for code in 0..=0x10FFFFu32 {
        if let Some(c) = char::from_u32(code) {
            assert_eq!(is_whitespace_char(c), c.is_whitespace(), "U+{:04X}", code);
        }
    }
}

#[test]
fn lower_case_of_ascii_letters() {
    for code in 0..=0x10FFFFu32 {
        if let Some(c) = char::from_u32(code) {
            assert_eq!(to_lower(c), c.to_ascii_lowercase(), "U+{:04X}", code);
        }
    }
}
