//! The target dimensions of a resize, from the source dimensions and the
//! dimensions that were requested.

use vstd::prelude::*;
use crate::error::{Failure, ResizerError};

verus! {

/// The width and height that an image is resized to.
#[derive(Clone, Copy, Debug, PartialEq, Eq, Structural)]
pub struct ResolvedDimensions {
    pub width: u32,
    pub height: u32,
}

/// `requested * along / across`, truncated toward zero, and held to the
/// range of `u32`.
pub open spec fn scaled(requested: int, along: int, across: int) -> int
    recommends
        across > 0,
{
    let exact = (requested * along) / across;
    if exact > u32::MAX { u32::MAX as int } else { exact }
}

/// What `determine_new_dimensions` returns.
pub open spec fn new_dimensions(
    source_width: u32,
    source_height: u32,
    width: Option<u32>,
    height: Option<u32>,
) -> Result<ResolvedDimensions, Failure> {
    match (width, height) {
        (Some(w), Some(h)) => Ok(ResolvedDimensions { width: w, height: h }),
        (None, None) => Err(Failure::MissingDimension),
        (Some(w), None) => if source_width == 0 || source_height == 0 {
            Err(Failure::InvalidSource)
        } else {
            Ok(
                ResolvedDimensions {
                    width: w,
                    height: scaled(w as int, source_height as int, source_width as int) as u32,
                },
            )
        },
        (None, Some(h)) => if source_width == 0 || source_height == 0 {
            Err(Failure::InvalidSource)
        } else {
            Ok(
                ResolvedDimensions {
                    width: scaled(h as int, source_width as int, source_height as int) as u32,
                    height: h,
                },
            )
        },
    }
}

/// Scales `requested` by the ratio `along / across`.
fn scale(requested: u32, along: u32, across: u32) -> (side: u32)
    requires
        across > 0,
    ensures
        side == scaled(requested as int, along as int, across as int),
{
    assert(requested as int * along as int <= 0xFFFF_FFFF * 0xFFFF_FFFF) by (nonlinear_arith)
        requires
            0 <= requested <= 0xFFFF_FFFF,
            0 <= along <= 0xFFFF_FFFF,
    ;
    let product: u64 = requested as u64 * along as u64;
    let exact: u64 = product / across as u64;
    if exact > u32::MAX as u64 {
        u32::MAX
    } else {
        exact as u32
    }
}

/// Computes the dimensions of the resized image.
///
/// Two requested dimensions are taken as they are. One requested dimension
/// fixes the other by the aspect ratio of the source, truncated toward zero.
pub fn determine_new_dimensions(
    source_width: u32,
    source_height: u32,
    width: Option<u32>,
    height: Option<u32>,
) -> (dims: Result<ResolvedDimensions, ResizerError>)
    ensures
        match dims {
            Ok(d) => new_dimensions(source_width, source_height, width, height) == Ok::<
                ResolvedDimensions,
                Failure,
            >(d),
            Err(e) => new_dimensions(source_width, source_height, width, height) == Err::<
                ResolvedDimensions,
                Failure,
            >(e@),
        },
{
    match (width, height) {
        (Some(w), Some(h)) => Ok(ResolvedDimensions { width: w, height: h }),
        (None, None) => Err(ResizerError::MissingDimension),
        (Some(w), None) => {
            if source_width == 0 || source_height == 0 {
                Err(ResizerError::InvalidSource)
            } else {
                Ok(ResolvedDimensions { width: w, height: scale(w, source_height, source_width) })
            }
        },
        (None, Some(h)) => {
            if source_width == 0 || source_height == 0 {
                Err(ResizerError::InvalidSource)
            } else {
                Ok(ResolvedDimensions { width: scale(h, source_width, source_height), height: h })
            }
        },
    }
}


/// Where only a width is requested of a source that has pixels, the width
/// is kept and the height is `width * source_height / source_width`,
/// truncated toward zero, as long as that fits in 32 bits.
pub proof fn lemma_width_fixes_height(source_width: u32, source_height: u32, width: u32)
    requires
        source_width > 0,
        source_height > 0,
        width * source_height / (source_width as int) <= u32::MAX,
    ensures
        new_dimensions(source_width, source_height, Some(width), None) == Ok::<
            ResolvedDimensions,
            Failure,
        >(
            ResolvedDimensions {
                width,
                height: (width * source_height / (source_width as int)) as u32,
            },
        ),
{
}

/// Where only a height is requested of a source that has pixels, the height
/// is kept and the width is `height * source_width / source_height`,
/// truncated toward zero, as long as that fits in 32 bits.
pub proof fn lemma_height_fixes_width(source_width: u32, source_height: u32, height: u32)
    requires
        source_width > 0,
        source_height > 0,
        height * source_width / (source_height as int) <= u32::MAX,
    ensures
        new_dimensions(source_width, source_height, None, Some(height)) == Ok::<
            ResolvedDimensions,
            Failure,
        >(
            ResolvedDimensions {
                width: (height * source_width / (source_height as int)) as u32,
                height,
            },
        ),
{
}

/// A computed dimension never exceeds what the aspect ratio gives, and is
/// short of it only at the largest value of 32 bits.
pub proof fn lemma_scaled_is_quotient_or_limit(requested: u32, along: u32, across: u32)
    requires
        across > 0,
    ensures
        0 <= scaled(requested as int, along as int, across as int) <= u32::MAX,
        scaled(requested as int, along as int, across as int) == requested * along / (
        across as int) || scaled(requested as int, along as int, across as int) == u32::MAX,
{
    assert(0 <= requested * along) by (nonlinear_arith);
    assert(0 <= (requested * along) / (across as int)) by (nonlinear_arith)
        requires
            0 <= requested * along,
            across > 0,
    ;
}

/// Two requested dimensions are taken as they are, whatever the source.
pub proof fn lemma_both_given_pass_through(
    source_width: u32,
    source_height: u32,
    width: u32,
    height: u32,
)
    ensures
        new_dimensions(source_width, source_height, Some(width), Some(height)) == Ok::<
            ResolvedDimensions,
            Failure,
        >(ResolvedDimensions { width, height }),
{
}

/// With no dimension requested there is no result, whatever the source.
pub proof fn lemma_none_given_fails(source_width: u32, source_height: u32)
    ensures
        new_dimensions(source_width, source_height, None, None) == Err::<
            ResolvedDimensions,
            Failure,
        >(Failure::MissingDimension),
{
}

} // verus!
