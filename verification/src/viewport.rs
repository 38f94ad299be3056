//! When the overlay has to be rebuilt because the window was resized.

use vstd::prelude::*;

use crate::geometry::{Rect, Size};

verus! {

/// The resolution and the window rectangle that a renderer was first shown
/// with.
#[derive(Clone, Copy, Debug, PartialEq, Eq, Structural)]
pub struct SavedViewport {
    pub resolution: Size,
    pub window_rect: Rect,
}

/// The resolution in an OpenGL viewport, which is given as x, y, width and
/// height.
pub open spec fn viewport_resolution(viewport: Seq<i32>) -> Size {
    Size { width: viewport[2], height: viewport[3] }
}

/// What is remembered once `viewport` and `rect` were seen: the first that was
/// ever seen.
pub open spec fn remembered(
    saved: Option<SavedViewport>,
    viewport: Seq<i32>,
    rect: Rect,
) -> SavedViewport {
    match saved {
        Some(first) => first,
        None => SavedViewport { resolution: viewport_resolution(viewport), window_rect: rect },
    }
}

/// `viewport` and `rect` differ from `first` in the resolution, or in the right
/// or bottom edge of the window.  Where the window begins does not matter.
pub open spec fn resized(first: SavedViewport, viewport: Seq<i32>, rect: Rect) -> bool {
    ||| viewport_resolution(viewport) != first.resolution
    ||| rect.right != first.window_rect.right
    ||| rect.bottom != first.window_rect.bottom
}

/// Compares what is on the screen now with what was first seen, which is
/// remembered if nothing was yet.
pub fn compare_viewport(
    saved: &mut Option<SavedViewport>,
    viewport: &[i32; 4],
    rect: Rect,
) -> (changed: bool)
    ensures
        *final(saved) == Some(remembered(*old(saved), viewport@, rect)),
        changed == resized(remembered(*old(saved), viewport@, rect), viewport@, rect),
{
    let now = SavedViewport {
        resolution: Size { width: viewport[2], height: viewport[3] },
        window_rect: rect,
    };
    let first = *saved.get_or_insert(now);
    viewport[2] != first.resolution.width || viewport[3] != first.resolution.height || rect.right
        != first.window_rect.right || rect.bottom != first.window_rect.bottom
}

} // verus!
