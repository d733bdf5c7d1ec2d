//! The confirmation that is asked for before an existing file is replaced.

use vstd::prelude::*;
use vstd::string::*;
use crate::error::{Failure, ResizerError};
use crate::text::{chars_of, lower, to_lower};

verus! {

/// What was found when the output path was looked for.
#[derive(Debug, PartialEq, Eq)]
pub enum PathProbe {
    /// Nothing is there.
    Missing,
    /// A file or directory is there.
    Present,
    /// It could not be found out; with the reason.
    Failed(String),
}

/// What is done next about an output path.
#[derive(Debug, PartialEq, Eq)]
pub enum GateStep {
    /// The file can be written.
    Proceed,
    /// The operator is asked whether the file is to be replaced.
    Ask,
    /// The operation ends with this failure.
    Abort(ResizerError),
}

/// Whether `c` is white space.
pub open spec fn is_whitespace(c: char) -> bool {
    let n = c as u32;
    ||| 0x09 <= n <= 0x0D
    ||| n == 0x20
    ||| n == 0x85
    ||| n == 0xA0
    ||| n == 0x1680
    ||| 0x2000 <= n <= 0x200A
    ||| n == 0x2028
    ||| n == 0x2029
    ||| n == 0x202F
    ||| n == 0x205F
    ||| n == 0x3000
}

/// Whether an answer says yes: it holds one `y` or `Y`, and white space
/// beside it at most.
pub open spec fn is_yes(answer: Seq<char>) -> bool {
    exists|i: int|
        0 <= i < answer.len() && lower(#[trigger] answer[i]) == 'y' && forall|j: int|
            0 <= j < answer.len() && j != i ==> is_whitespace(#[trigger] answer[j])
}

/// Tells whether `c` is white space.
pub fn is_whitespace_char(c: char) -> (white: bool)
    ensures
        white == is_whitespace(c),
{
    let n: u32 = c as u32;
    (0x09 <= n && n <= 0x0D) || n == 0x20 || n == 0x85 || n == 0xA0 || n == 0x1680 || (0x2000 <= n
        && n <= 0x200A) || n == 0x2028 || n == 0x2029 || n == 0x202F || n == 0x205F || n
        == 0x3000
}

/// Tells whether an answer says yes.
pub fn is_affirmative(answer: &str) -> (yes: bool)
    ensures
        yes == is_yes(answer@),
{
    let chars: Vec<char> = chars_of(answer);
    let mut found: Option<usize> = None;
    let mut i: usize = 0;
    while i < chars.len()
        invariant
            i <= chars.len(),
            chars@ == answer@,
            match found {
                Some(k) => k < i && lower(chars@[k as int]) == 'y',
                None => true,
            },
            forall|j: int| 0 <= j < i && Some(j as usize) != found ==> is_whitespace(#[trigger] chars@[j]),
        decreases chars.len() - i,
    {
        let c: char = chars[i];
        if !is_whitespace_char(c) {
            if to_lower(c) == 'y' && found.is_none() {
                found = Some(i);
            } else {
                assert(!is_yes(answer@)) by {
                    if is_yes(answer@) {
                        let w = choose|w: int|
                            0 <= w < answer@.len() && lower(#[trigger] answer@[w]) == 'y' && forall|
                                j: int,
                            |
                                0 <= j < answer@.len() && j != w ==> is_whitespace(
                                    #[trigger] answer@[j],
                                );
                        if w != i {
                            assert(is_whitespace(answer@[i as int]));
                        } else if let Some(k) = found {
                            assert(is_whitespace(answer@[k as int]));
                        }
                    }
                }
                return false;
            }
        }
        i += 1;
    }
    match found {
        Some(k) => {
            assert(lower(answer@[k as int]) == 'y');
            true
        },
        None => {
            assert(!is_yes(answer@)) by {
                if is_yes(answer@) {
                    let w = choose|w: int|
                        0 <= w < answer@.len() && lower(#[trigger] answer@[w]) == 'y' && forall|
                            j: int,
                        |
                            0 <= j < answer@.len() && j != w ==> is_whitespace(
                                #[trigger] answer@[j],
                            );
                    assert(is_whitespace(answer@[w]));
                }
            }
            false
        },
    }
}

/// What `check_if_path_exists` returns.
pub open spec fn gate_step(probe: PathProbe) -> GateStep {
    match probe {
        PathProbe::Missing => GateStep::Proceed,
        PathProbe::Present => GateStep::Ask,
        PathProbe::Failed(reason) => GateStep::Abort(ResizerError::PathCheckFailed(reason)),
    }
}

/// Decides what is done about an output path once it was looked for: a
/// file that is there is not replaced unasked.
pub fn check_if_path_exists(probe: PathProbe) -> (step: GateStep)
    ensures
        step == gate_step(probe),
{
    match probe {
        PathProbe::Missing => GateStep::Proceed,
        PathProbe::Present => GateStep::Ask,
        PathProbe::Failed(reason) => GateStep::Abort(ResizerError::PathCheckFailed(reason)),
    }
}

/// Decides on the operator's answer whether the file at `path` is replaced:
/// any answer but yes cancels the operation.
pub fn confirm_replacement(path: &str, answer: &str) -> (confirmed: Result<(), ResizerError>)
    ensures
        match confirmed {
            Ok(_) => is_yes(answer@),
            Err(e) => !is_yes(answer@) && e@ == Failure::Cancelled(path@),
        },
{
    if is_affirmative(answer) {
        Ok(())
    } else {
        Err(ResizerError::Cancelled(String::from_str(path)))
    }
}

} // verus!
