//! Size of the drawing surface: requests are clamped to a maximum, and a
//! surface with an empty side is not configured.

use vstd::prelude::*;

verus! {

/// Largest surface width that is configured.
pub const MAX_WIDTH_WEB: u32 = 480;

/// Largest surface height that is configured.
pub const MAX_HEIGHT_WEB: u32 = 270;

/// Width and height of a surface, in physical pixels.
#[derive(Debug, Clone, Copy, PartialEq, Eq, Hash, Structural)]
pub struct SurfaceSize {
    pub width: u32,
    pub height: u32,
}

/// `x`, but no more than `max`.
pub open spec fn at_most(x: u32, max: u32) -> u32 {
    if x > max {
        max
    } else {
        x
    }
}

/// The requested size with each side clamped to its maximum.
pub fn clamped_size(width: u32, height: u32) -> (r: SurfaceSize)
    ensures
        r.width == at_most(width, MAX_WIDTH_WEB),
        r.height == at_most(height, MAX_HEIGHT_WEB),
{
    let mut target = SurfaceSize { width, height };
    if target.width > MAX_WIDTH_WEB {
        target.width = MAX_WIDTH_WEB;
    }
    if target.height > MAX_HEIGHT_WEB {
        target.height = MAX_HEIGHT_WEB;
    }
    target
}

/// The size to configure the surface with after a resize to `width` by
/// `height`: the clamped size, or none when a side of it is empty.
pub fn resized(width: u32, height: u32) -> (r: Option<SurfaceSize>)
    ensures
        (width > 0 && height > 0) ==> r == Some(SurfaceSize {
            width: at_most(width, MAX_WIDTH_WEB),
            height: at_most(height, MAX_HEIGHT_WEB),
        }),
        !(width > 0 && height > 0) ==> r is None,
{
    let target = clamped_size(width, height);
    if target.width > 0 && target.height > 0 {
        Some(target)
    } else {
        None
    }
}

} // verus!
